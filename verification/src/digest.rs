//! SHA-256 digests and their lowercase hex text.
use vstd::prelude::*;

use sha2::{Digest, Sha256};

use crate::text::string_from_chars;

verus! {

/// The SHA-256 digest of `data`.
pub uninterp spec fn sha256_of(data: Seq<u8>) -> Seq<u8>;

/// Calls `sha2::Sha256::digest`; the result is the digest of exactly `data`, 32 bytes long
/// (the fixed output size of SHA-256).
#[verifier::external_body]
fn sha256_digest(data: &[u8]) -> (r: Vec<u8>)
    ensures
        r@ == sha256_of(data@),
        r@.len() == 32,
{
    Sha256::digest(data).to_vec()
}

/// Lowercase hex digit for `n < 16`.
pub open spec fn hex_digit(n: u8) -> char {
    if n < 10 {
        ((48 + n) as u8) as char
    } else {
        ((87 + n) as u8) as char
    }
}

/// Lowercase hex text of `b`, two digits per byte (the `{:x}` rendering of a digest).
pub open spec fn hex_lower(b: Seq<u8>) -> Seq<char>
    decreases b.len(),
{
    if b.len() == 0 {
        Seq::empty()
    } else {
        hex_lower(b.drop_last()) + seq![hex_digit(b.last() / 16), hex_digit(b.last() % 16)]
    }
}

/// The hex text of `b` has two characters per byte.
pub proof fn lemma_hex_lower_len(b: Seq<u8>)
    ensures
        hex_lower(b).len() == 2 * b.len(),
    decreases b.len(),
{
    if b.len() > 0 {
        lemma_hex_lower_len(b.drop_last());
    }
}

/// Characters of `hex_lower` are `0-9a-f`.
pub proof fn lemma_hex_lower_chars(b: Seq<u8>)
    ensures
        forall|i: int|
            0 <= i < hex_lower(b).len() ==> {
                let c = #[trigger] hex_lower(b)[i];
                ('0' <= c && c <= '9') || ('a' <= c && c <= 'f')
            },
    decreases b.len(),
{
    if b.len() > 0 {
        lemma_hex_lower_chars(b.drop_last());
        lemma_hex_lower_len(b.drop_last());
        let x = b.last();
        assert(x / 16 < 16 && x % 16 < 16);
    }
}

/// The first `2 * k` hex characters describe the first `k` bytes.
pub proof fn lemma_hex_lower_prefix(b: Seq<u8>, k: int)
    requires
        0 <= k <= b.len(),
    ensures
        hex_lower(b).subrange(0, 2 * k) == hex_lower(b.subrange(0, k)),
    decreases b.len(),
{
    lemma_hex_lower_len(b);
    if k == b.len() {
        assert(b.subrange(0, k) =~= b);
        assert(hex_lower(b).subrange(0, 2 * k) =~= hex_lower(b));
    } else {
        lemma_hex_lower_prefix(b.drop_last(), k);
        lemma_hex_lower_len(b.drop_last());
        assert(b.drop_last().subrange(0, k) =~= b.subrange(0, k));
        assert(hex_lower(b).subrange(0, 2 * k) =~= hex_lower(b.drop_last()).subrange(0, 2 * k));
    }
}

fn hex_digit_char(n: u8) -> (r: char)
    requires
        n < 16,
    ensures
        r == hex_digit(n),
{
    if n < 10 {
        (48 + n) as char
    } else {
        (87 + n) as char
    }
}

/// Lowercase hex text of `bytes`.
pub fn hex_lower_string(bytes: &[u8]) -> (r: String)
    ensures
        r@ == hex_lower(bytes@),
{
    let mut out: Vec<char> = Vec::new();
    let mut i: usize = 0;
    while i < bytes.len()
        invariant
            i <= bytes@.len(),
            out@ == hex_lower(bytes@.subrange(0, i as int)),
        decreases bytes@.len() - i,
    {
        let b = bytes[i];
        out.push(hex_digit_char(b / 16));
        out.push(hex_digit_char(b % 16));
        proof {
            let p = bytes@.subrange(0, i + 1);
            assert(p.drop_last() =~= bytes@.subrange(0, i as int));
            assert(p.last() == b);
            assert(out@ =~= hex_lower(p));
        }
        i = i + 1;
    }
    assert(bytes@.subrange(0, bytes@.len() as int) =~= bytes@);
    string_from_chars(out.as_slice())
}

/// Lowercase hex SHA-256 of `bytes` (64 characters).
pub fn sha256_hex(bytes: &[u8]) -> (r: String)
    ensures
        r@ == hex_lower(sha256_of(bytes@)),
        r@.len() == 64,
{
    let d = sha256_digest(bytes);
    proof {
        lemma_hex_lower_len(d@);
    }
    hex_lower_string(d.as_slice())
}

} // verus!
