//! Text order of strings and a stable insertion sort by a text key, with its proofs.
use vstd::prelude::*;

verus! {

/// Text order of Rust strings (that of their UTF-8 bytes, which is that of their
/// characters): `a` comes strictly before `b`.
pub open spec fn text_lt(a: Seq<char>, b: Seq<char>) -> bool
    decreases a.len(),
{
    if a.len() == 0 {
        b.len() > 0
    } else if b.len() == 0 {
        false
    } else if a[0] != b[0] {
        a[0] < b[0]
    } else {
        text_lt(a.drop_first(), b.drop_first())
    }
}

proof fn lemma_text_lt_from(a: Seq<char>, b: Seq<char>, i: int)
    requires
        0 <= i <= a.len(),
        i <= b.len(),
        a.subrange(0, i) == b.subrange(0, i),
    ensures
        text_lt(a, b) == text_lt(a.subrange(i, a.len() as int), b.subrange(i, b.len() as int)),
    decreases i,
{
    if i > 0 {
        assert(a[0] == a.subrange(0, i)[0]);
        assert(b[0] == b.subrange(0, i)[0]);
        assert(a.drop_first().subrange(0, i - 1) =~= a.subrange(0, i).drop_first());
        assert(b.drop_first().subrange(0, i - 1) =~= b.subrange(0, i).drop_first());
        lemma_text_lt_from(a.drop_first(), b.drop_first(), i - 1);
        assert(a.drop_first().subrange(i - 1, a.len() - 1) =~= a.subrange(i, a.len() as int));
        assert(b.drop_first().subrange(i - 1, b.len() - 1) =~= b.subrange(i, b.len() as int));
    } else {
        assert(a.subrange(0, a.len() as int) =~= a);
        assert(b.subrange(0, b.len() as int) =~= b);
    }
}

/// Whether `a` comes strictly before `b` in text order.
pub fn text_lt_exec(a: &str, b: &str) -> (r: bool)
    ensures
        r == text_lt(a@, b@),
{
    let n = a.unicode_len();
    let m = b.unicode_len();
    let mut i: usize = 0;
    while i < n && i < m
        invariant
            n == a@.len(),
            m == b@.len(),
            i <= n,
            i <= m,
            a@.subrange(0, i as int) == b@.subrange(0, i as int),
        decreases n - i,
    {
        let x = a.get_char(i);
        let y = b.get_char(i);
        if x != y {
            proof {
                lemma_text_lt_from(a@, b@, i as int);
                assert(a@.subrange(i as int, n as int)[0] == x);
                assert(b@.subrange(i as int, m as int)[0] == y);
            }
            return x < y;
        }
        assert(a@.subrange(0, i + 1) =~= a@.subrange(0, i as int).push(x));
        assert(b@.subrange(0, i + 1) =~= b@.subrange(0, i as int).push(y));
        i = i + 1;
    }
    proof {
        lemma_text_lt_from(a@, b@, i as int);
    }
    i < m
}

/// No text comes strictly before itself.
pub proof fn lemma_text_lt_irreflexive(a: Seq<char>)
    ensures
        !text_lt(a, a),
    decreases a.len(),
{
    if a.len() > 0 {
        lemma_text_lt_irreflexive(a.drop_first());
    }
}

/// Text order is transitive.
pub proof fn lemma_text_lt_transitive(a: Seq<char>, b: Seq<char>, c: Seq<char>)
    requires
        text_lt(a, b),
        text_lt(b, c),
    ensures
        text_lt(a, c),
    decreases a.len(),
{
    if a.len() > 0 && b.len() > 0 && c.len() > 0 && a[0] == b[0] && b[0] == c[0] {
        lemma_text_lt_transitive(a.drop_first(), b.drop_first(), c.drop_first());
    }
}

/// Of two different texts, one comes strictly before the other.
pub proof fn lemma_text_lt_total(a: Seq<char>, b: Seq<char>)
    requires
        a != b,
    ensures
        text_lt(a, b) || text_lt(b, a),
    decreases a.len(),
{
    if a.len() > 0 && b.len() > 0 && a[0] == b[0] {
        if a.drop_first() == b.drop_first() {
            assert(a =~= seq![a[0]] + a.drop_first());
            assert(b =~= seq![b[0]] + b.drop_first());
        }
        lemma_text_lt_total(a.drop_first(), b.drop_first());
    } else if a.len() == 0 && b.len() == 0 {
        assert(a =~= b);
    }
}

/// Text order, not strict: `a` does not come after `b`.
pub open spec fn text_le(a: Seq<char>, b: Seq<char>) -> bool {
    !text_lt(b, a)
}

/// The non-strict text order is transitive.
pub proof fn lemma_text_le_transitive(a: Seq<char>, b: Seq<char>, c: Seq<char>)
    requires
        text_le(a, b),
        text_le(b, c),
    ensures
        text_le(a, c),
{
    if text_lt(c, a) {
        if a == b {
        } else {
            lemma_text_lt_total(a, b);
            if b == c {
            } else {
                lemma_text_lt_total(b, c);
                lemma_text_lt_transitive(a, b, c);
                lemma_text_lt_transitive(c, a, b);
                lemma_text_lt_transitive(c, b, c);
                lemma_text_lt_irreflexive(c);
            }
        }
    }
}


/// `sorted` with `x` placed after every element whose key does not come after its own.
pub open spec fn insert_by_key<T>(sorted: Seq<T>, x: T, key: spec_fn(T) -> Seq<char>) -> Seq<T>
    decreases sorted.len(),
{
    if sorted.len() == 0 {
        seq![x]
    } else if text_lt(key(x), key(sorted.last())) {
        insert_by_key(sorted.drop_last(), x, key).push(sorted.last())
    } else {
        sorted.push(x)
    }
}

/// Stable sort by `key`.
pub open spec fn sort_by_key<T>(s: Seq<T>, key: spec_fn(T) -> Seq<char>) -> Seq<T>
    decreases s.len(),
{
    if s.len() == 0 {
        Seq::empty()
    } else {
        insert_by_key(sort_by_key(s.drop_last(), key), s.last(), key)
    }
}

/// Inserting at the position found by scanning back past the larger keys.
pub proof fn lemma_insert_at<T>(s: Seq<T>, x: T, key: spec_fn(T) -> Seq<char>, p: int)
    requires
        0 <= p <= s.len(),
        forall|k: int| p <= k < s.len() ==> text_lt(key(x), key(#[trigger] s[k])),
        p == 0 || !text_lt(key(x), key(s[p - 1])),
    ensures
        insert_by_key(s, x, key) == s.subrange(0, p).push(x) + s.subrange(p, s.len() as int),
    decreases s.len(),
{
    if s.len() == 0 {
        assert(s.subrange(0, p).push(x) + s.subrange(p, s.len() as int) =~= seq![x]);
    } else if text_lt(key(x), key(s.last())) {
        let t = s.drop_last();
        assert(p < s.len()) by {
            if p == s.len() {
                assert(!text_lt(key(x), key(s[p - 1])));
            }
        }
        assert forall|k: int| p <= k < t.len() implies text_lt(key(x), key(#[trigger] t[k])) by {
            assert(t[k] == s[k]);
        }
        if p > 0 {
            assert(t[p - 1] == s[p - 1]);
        }
        lemma_insert_at(t, x, key, p);
        assert(insert_by_key(s, x, key) =~= s.subrange(0, p).push(x) + s.subrange(
            p,
            s.len() as int,
        ));
    } else {
        assert(p == s.len()) by {
            if p < s.len() {
                assert(text_lt(key(x), key(s[s.len() - 1])));
            }
        }
        assert(s.subrange(0, p) =~= s);
        assert(s.subrange(0, p).push(x) + s.subrange(p, s.len() as int) =~= s.push(x));
    }
}

/// Every element of `s` has a key not after `b`.
pub open spec fn keys_at_most<T>(s: Seq<T>, key: spec_fn(T) -> Seq<char>, b: Seq<char>) -> bool {
    forall|k: int| 0 <= k < s.len() ==> text_le(key(#[trigger] s[k]), b)
}

/// The keys of `s` never decrease.
pub open spec fn sorted_by_key<T>(s: Seq<T>, key: spec_fn(T) -> Seq<char>) -> bool {
    forall|i: int, j: int| 0 <= i < j < s.len() ==> text_le(key(#[trigger] s[i]), key(#[trigger] s[j]))
}

proof fn lemma_insert_keys_at_most<T>(s: Seq<T>, x: T, key: spec_fn(T) -> Seq<char>, b: Seq<char>)
    requires
        keys_at_most(s, key, b),
        text_le(key(x), b),
    ensures
        keys_at_most(insert_by_key(s, x, key), key, b),
    decreases s.len(),
{
    if s.len() > 0 && text_lt(key(x), key(s.last())) {
        let t = s.drop_last();
        assert(keys_at_most(t, key, b)) by {
            assert forall|k: int| 0 <= k < t.len() implies text_le(key(#[trigger] t[k]), b) by {
                assert(t[k] == s[k]);
            }
        }
        lemma_insert_keys_at_most(t, x, key, b);
        let r = insert_by_key(t, x, key).push(s.last());
        assert forall|k: int| 0 <= k < r.len() implies text_le(key(#[trigger] r[k]), b) by {
            if k < r.len() - 1 {
                assert(r[k] == insert_by_key(t, x, key)[k]);
            } else {
                assert(s.last() == s[s.len() - 1]);
            }
        }
    } else if s.len() > 0 {
        let r = s.push(x);
        assert forall|k: int| 0 <= k < r.len() implies text_le(key(#[trigger] r[k]), b) by {
            if k < s.len() {
                assert(r[k] == s[k]);
            }
        }
    }
}

proof fn lemma_insert_sorted<T>(s: Seq<T>, x: T, key: spec_fn(T) -> Seq<char>)
    requires
        sorted_by_key(s, key),
    ensures
        sorted_by_key(insert_by_key(s, x, key), key),
    decreases s.len(),
{
    if s.len() > 0 {
        let last = s.last();
        let t = s.drop_last();
        assert(sorted_by_key(t, key)) by {
            assert forall|i: int, j: int| 0 <= i < j < t.len() implies text_le(
                key(#[trigger] t[i]),
                key(#[trigger] t[j]),
            ) by {
                assert(t[i] == s[i] && t[j] == s[j]);
            }
        }
        assert(keys_at_most(t, key, key(last))) by {
            assert forall|k: int| 0 <= k < t.len() implies text_le(key(#[trigger] t[k]), key(last)) by {
                assert(t[k] == s[k]);
                assert(s[s.len() - 1] == last);
            }
        }
        if text_lt(key(x), key(last)) {
            lemma_insert_sorted(t, x, key);
            assert(text_le(key(x), key(last))) by {
                if text_lt(key(last), key(x)) {
                    lemma_text_lt_transitive(key(x), key(last), key(x));
                    lemma_text_lt_irreflexive(key(x));
                }
            }
            lemma_insert_keys_at_most(t, x, key, key(last));
            let a = insert_by_key(t, x, key);
            let r = a.push(last);
            assert forall|i: int, j: int| 0 <= i < j < r.len() implies text_le(
                key(#[trigger] r[i]),
                key(#[trigger] r[j]),
            ) by {
                assert(r[i] == a[i]);
                if j < r.len() - 1 {
                    assert(r[j] == a[j]);
                }
            }
        } else {
            let r = s.push(x);
            assert forall|i: int, j: int| 0 <= i < j < r.len() implies text_le(
                key(#[trigger] r[i]),
                key(#[trigger] r[j]),
            ) by {
                assert(r[i] == s[i]);
                if j < s.len() {
                    assert(r[j] == s[j]);
                } else {
                    if i < s.len() - 1 {
                        assert(text_le(key(s[i]), key(last)));
                    } else {
                        assert(s[i] == last);
                        lemma_text_lt_irreflexive(key(last));
                    }
                    lemma_text_le_transitive(key(s[i]), key(last), key(x));
                }
            }
        }
    }
}

/// A stable sort by a text key yields keys in order.
pub proof fn lemma_sort_by_key_sorted<T>(s: Seq<T>, key: spec_fn(T) -> Seq<char>)
    ensures
        sorted_by_key(sort_by_key(s, key), key),
    decreases s.len(),
{
    if s.len() > 0 {
        lemma_sort_by_key_sorted(s.drop_last(), key);
        lemma_insert_sorted(sort_by_key(s.drop_last(), key), s.last(), key);
    }
}

} // verus!
