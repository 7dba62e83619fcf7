//! Expected Rust acceptance-criterion test files of a spec graph: one flat file
//! `tests/ac_<slug>.rs` per criterion of a known spec, ordered by criterion id, with a
//! `validates_…` test function skeleton. Also the ancestry of a spec along its
//! `depends_on` relations, as slugs from the root down.
use vstd::prelude::*;

use crate::models::{AcceptanceCriterion, Spec, SpecGraph, SpecRelation};
use crate::text::{append_str, ascii_lower, has_prefix, is_ascii_alnum, owned, starts_with_str, str_eq,
    string_from_chars, to_ascii_lower};
use crate::text_sort::{insert_by_key, lemma_insert_at, lemma_sort_by_key_sorted, lemma_text_lt_irreflexive,
    lemma_text_lt_transitive, sort_by_key, sorted_by_key, text_le, text_lt, text_lt_exec};

verus! {

/// One AC test file that tooling may materialize or check on disk.
#[derive(Debug, Clone, PartialEq, Eq)]
pub struct ExpectedAcTestFile {
    pub ac_id: String,
    pub file_path: String,
    pub test_command: String,
    pub content: String,
}

/// One character of the identifier scan: `(body so far, last step was a separator)`.
pub open spec fn ident_step(st: (Seq<char>, bool), ch: char) -> (Seq<char>, bool) {
    let (body, prev_sep) = st;
    if is_ascii_alnum(ch) {
        (body.push(ch), false)
    } else if ch == '-' || ch == '_' {
        (if !prev_sep && body.len() > 0 {
            body.push('_')
        } else {
            body
        }, true)
    } else if !prev_sep && body.len() > 0 {
        (body.push('_'), true)
    } else {
        (body, prev_sep)
    }
}

/// The scan over the lowercased slug.
pub open spec fn ident_scan(s: Seq<char>) -> (Seq<char>, bool)
    decreases s.len(),
{
    if s.len() == 0 {
        (Seq::empty(), true)
    } else {
        ident_step(ident_scan(s.drop_last()), ascii_lower(s.last()))
    }
}

/// `b` without trailing underscores.
pub open spec fn trim_underscores_end(b: Seq<char>) -> Seq<char>
    decreases b.len(),
{
    if b.len() > 0 && b.last() == '_' {
        trim_underscores_end(b.drop_last())
    } else {
        b
    }
}

/// The test function name for an AC slug.
pub open spec fn rust_ident(slug: Seq<char>) -> Seq<char> {
    let body = trim_underscores_end(ident_scan(slug).0);
    if body.len() == 0 {
        "validates_ac_test"@
    } else if has_prefix(body, "validates_"@) {
        body
    } else {
        "validates_"@ + body
    }
}

/// Map an AC slug into a conventional `#[test]` fn name: lowercased, runs of other
/// characters as single underscores, underscores trimmed at the end, `validates_` in front
/// unless already there; `validates_ac_test` when nothing is left.
pub fn slug_to_rust_ident(slug: &str) -> (r: String)
    ensures
        r@ == rust_ident(slug@),
{
    let n = slug.unicode_len();
    let mut body: Vec<char> = Vec::new();
    let mut prev_sep = true;
    let mut i: usize = 0;
    while i < n
        invariant
            n == slug@.len(),
            i <= n,
            (body@, prev_sep) == ident_scan(slug@.subrange(0, i as int)),
        decreases n - i,
    {
        let ch = to_ascii_lower(slug.get_char(i));
        assert(slug@.subrange(0, i + 1).drop_last() =~= slug@.subrange(0, i as int));
        let is_alnum = ('a' <= ch && ch <= 'z') || ('A' <= ch && ch <= 'Z') || ('0' <= ch && ch
            <= '9');
        if is_alnum {
            body.push(ch);
            prev_sep = false;
        } else if ch == '-' || ch == '_' {
            if !prev_sep && body.len() > 0 {
                body.push('_');
            }
            prev_sep = true;
        } else if !prev_sep && body.len() > 0 {
            body.push('_');
            prev_sep = true;
        }
        i = i + 1;
    }
    assert(slug@.subrange(0, n as int) =~= slug@);
    while body.len() > 0 && body[body.len() - 1] == '_'
        invariant
            trim_underscores_end(body@) == trim_underscores_end(ident_scan(slug@).0),
        decreases body@.len(),
    {
        body.pop();
    }
    let b = string_from_chars(body.as_slice());
    if body.len() == 0 {
        return crate::text::owned("validates_ac_test");
    }
    if starts_with_str(b.as_str(), "validates_") {
        b
    } else {
        let mut out: Vec<char> = Vec::new();
        append_str(&mut out, "validates_");
        append_str(&mut out, b.as_str());
        string_from_chars(out.as_slice())
    }
}

/// The criteria whose spec is in `specs`, in order.
pub open spec fn known_acs(acs: Seq<AcceptanceCriterion>, specs: Seq<Spec>) -> Seq<AcceptanceCriterion>
    decreases acs.len(),
{
    if acs.len() == 0 {
        Seq::empty()
    } else {
        let rest = known_acs(acs.drop_last(), specs);
        if exists|j: int| 0 <= j < specs.len() && (#[trigger] specs[j]).id@ == acs.last().spec_id@ {
            rest.push(acs.last())
        } else {
            rest
        }
    }
}

/// The sort key of a criterion: its id.
pub open spec fn ac_id_key() -> spec_fn(AcceptanceCriterion) -> Seq<char> {
    |a: AcceptanceCriterion| a.id@
}

/// The criteria sorted by id, stably.
pub open spec fn sort_by_id(s: Seq<AcceptanceCriterion>) -> Seq<AcceptanceCriterion> {
    sort_by_key(s, ac_id_key())
}

/// The test function skeleton of a criterion.
pub open spec fn skeleton(ac_id: Seq<char>, ident: Seq<char>) -> Seq<char> {
    "//! AC: "@ + ac_id + "\n//! Generated by coherence-core-db MVP AC test layout.\n\n#[test]\nfn "@
        + ident + "() {\n    todo!(\"Implement "@ + ac_id + "\");\n}\n"@
}

/// `f` is the expected test file of `ac`.
pub open spec fn file_of(f: ExpectedAcTestFile, ac: AcceptanceCriterion) -> bool {
    &&& f.ac_id@ == ac.id@
    &&& f.file_path@ == "tests/ac_"@ + ac.slug@ + ".rs"@
    &&& f.test_command@ == "cargo test -p coherence-core-db-bootstrap "@ + rust_ident(ac.slug@)
    &&& f.content@ == skeleton(ac.id@, rust_ident(ac.slug@))
}

/// The body of a generated test file.
pub fn skeleton_rust_content(ac_id: &str, ident: &str) -> (r: String)
    ensures
        r@ == skeleton(ac_id@, ident@),
{
    let mut out: Vec<char> = Vec::new();
    append_str(&mut out, "//! AC: ");
    append_str(&mut out, ac_id);
    append_str(&mut out, "\n//! Generated by coherence-core-db MVP AC test layout.\n\n#[test]\nfn ");
    append_str(&mut out, ident);
    append_str(&mut out, "() {\n    todo!(\"Implement ");
    append_str(&mut out, ac_id);
    append_str(&mut out, "\");\n}\n");
    string_from_chars(out.as_slice())
}

fn expected_file(ac: &AcceptanceCriterion) -> (r: ExpectedAcTestFile)
    ensures
        file_of(r, *ac),
{
    let mut path: Vec<char> = Vec::new();
    append_str(&mut path, "tests/ac_");
    append_str(&mut path, ac.slug.as_str());
    append_str(&mut path, ".rs");
    let ident = slug_to_rust_ident(ac.slug.as_str());
    let mut cmd: Vec<char> = Vec::new();
    append_str(&mut cmd, "cargo test -p coherence-core-db-bootstrap ");
    append_str(&mut cmd, ident.as_str());
    ExpectedAcTestFile {
        ac_id: ac.id.clone(),
        file_path: string_from_chars(path.as_slice()),
        test_command: string_from_chars(cmd.as_slice()),
        content: skeleton_rust_content(ac.id.as_str(), ident.as_str()),
    }
}

fn spec_known(specs: &Vec<Spec>, id: &str) -> (r: bool)
    ensures
        r == exists|j: int| 0 <= j < specs@.len() && (#[trigger] specs@[j]).id@ == id@,
{
    let mut j: usize = 0;
    while j < specs.len()
        invariant
            j <= specs@.len(),
            forall|k: int| 0 <= k < j ==> (#[trigger] specs@[k]).id@ != id@,
        decreases specs@.len() - j,
    {
        if str_eq(specs[j].id.as_str(), id) {
            return true;
        }
        j = j + 1;
    }
    false
}

/// One file per criterion of a known spec, sorted by criterion id (a stable sort).
pub fn expected_rust_ac_test_files(graph: &SpecGraph) -> (r: Vec<ExpectedAcTestFile>)
    ensures
        r@.len() == sort_by_id(known_acs(graph.acceptance_criteria@, graph.specs@)).len(),
        forall|k: int|
            0 <= k < r@.len() ==> file_of(
                #[trigger] r@[k],
                sort_by_id(known_acs(graph.acceptance_criteria@, graph.specs@))[k],
            ),
        forall|i: int, j: int|
            0 <= i < j < r@.len() ==> text_le((#[trigger] r@[i]).ac_id@, (#[trigger] r@[j]).ac_id@),
{
    let ghost acs = graph.acceptance_criteria@;
    let ghost specs = graph.specs@;
    let mut out: Vec<ExpectedAcTestFile> = Vec::new();
    let ghost mut sorted: Seq<AcceptanceCriterion> = Seq::empty();
    let mut i: usize = 0;
    assert(known_acs(acs.subrange(0, 0), specs) =~= Seq::<AcceptanceCriterion>::empty());
    while i < graph.acceptance_criteria.len()
        invariant
            acs == graph.acceptance_criteria@,
            specs == graph.specs@,
            i <= acs.len(),
            sorted == sort_by_id(known_acs(acs.subrange(0, i as int), specs)),
            out@.len() == sorted.len(),
            forall|k: int| 0 <= k < out@.len() ==> file_of(#[trigger] out@[k], sorted[k]),
        decreases acs.len() - i,
    {
        let ac = &graph.acceptance_criteria[i];
        assert(acs.subrange(0, i + 1).drop_last() =~= acs.subrange(0, i as int));
        assert(acs.subrange(0, i + 1).last() == *ac);
        let ghost prev_known = known_acs(acs.subrange(0, i as int), specs);
        if spec_known(&graph.specs, ac.spec_id.as_str()) {
            proof {
                let kn = known_acs(acs.subrange(0, i + 1), specs);
                assert(kn == prev_known.push(*ac));
                assert(kn.drop_last() =~= prev_known);
                assert(sort_by_id(kn) == insert_by_key(sort_by_id(prev_known), *ac, ac_id_key()));
            }
            let f = expected_file(ac);
            let mut p: usize = out.len();
            while p > 0 && text_lt_exec(ac.id.as_str(), out[p - 1].ac_id.as_str())
                invariant
                    p <= out@.len(),
                    out@.len() == sorted.len(),
                    forall|k: int| 0 <= k < out@.len() ==> file_of(#[trigger] out@[k], sorted[k]),
                    forall|k: int| p <= k < sorted.len() ==> text_lt(ac.id@, (#[trigger] sorted[k]).id@),
                    forall|k: int| p <= k < sorted.len() ==> text_lt((ac_id_key())(*ac), (ac_id_key())(#[trigger] sorted[k])),
                decreases p,
            {
                assert(file_of(out@[p - 1], sorted[p - 1]));
                p = p - 1;
            }
            proof {
                if p > 0 {
                    assert(file_of(out@[p - 1], sorted[p - 1]));
                }
                lemma_insert_at(sorted, *ac, ac_id_key(), p as int);
            }
            let ghost before = out@;
            out.insert(p, f);
            proof {
                let ns = sorted.subrange(0, p as int).push(*ac) + sorted.subrange(p as int, sorted.len() as int);
                assert forall|k: int| 0 <= k < out@.len() implies file_of(#[trigger] out@[k], ns[k]) by {
                    if k < p {
                        assert(out@[k] == before[k]);
                    } else if k > p {
                        assert(out@[k] == before[k - 1]);
                        assert(ns[k] == sorted[k - 1]);
                    }
                }
                sorted = ns;
            }
        } else {
            assert(known_acs(acs.subrange(0, i + 1), specs) == prev_known);
        }
        i = i + 1;
    }
    assert(acs.subrange(0, acs.len() as int) =~= acs);
    proof {
        lemma_sort_by_key_sorted(known_acs(acs, specs), ac_id_key());
        assert forall|i: int, j: int| 0 <= i < j < out@.len() implies text_le(
            (#[trigger] out@[i]).ac_id@,
            (#[trigger] out@[j]).ac_id@,
        ) by {
            assert(file_of(out@[i], sorted[i]));
            assert(file_of(out@[j], sorted[j]));
            assert(sorted_by_key(sorted, ac_id_key()));
            assert(text_le((ac_id_key())(sorted[i]), (ac_id_key())(sorted[j])));
        }
    }
    out
}


/// The spec that `src` depends on, as the `depends_on` relations among `rels` decide it:
/// the least target in text order of those whose source is `src`, if there is one.
pub open spec fn parent_of(rels: Seq<SpecRelation>, src: Seq<char>) -> Option<Seq<char>>
    decreases rels.len(),
{
    if rels.len() == 0 {
        None
    } else {
        let prev = parent_of(rels.drop_last(), src);
        let r = rels.last();
        if r.relation_kind@ == "depends_on"@ && r.source_spec_id@ == src {
            match prev {
                Some(t) => if text_lt(r.target_spec_id@, t) { Some(r.target_spec_id@) } else { prev },
                None => Some(r.target_spec_id@),
            }
        } else {
            prev
        }
    }
}

/// `r` is a `depends_on` relation from the spec `src`.
pub open spec fn depends_from(r: SpecRelation, src: Seq<char>) -> bool {
    r.relation_kind@ == "depends_on"@ && r.source_spec_id@ == src
}

/// The parent of a spec is the least target, in text order, of its `depends_on` relations;
/// a spec without such relations has none.
pub proof fn lemma_parent_is_least_target(rels: Seq<SpecRelation>, src: Seq<char>)
    ensures
        parent_of(rels, src) is None <==> forall|j: int| 0 <= j < rels.len() ==> !depends_from(#[trigger] rels[j], src),
        parent_of(rels, src) matches Some(t) ==> {
            &&& exists|j: int| 0 <= j < rels.len() && depends_from(#[trigger] rels[j], src) && rels[j].target_spec_id@ == t
            &&& forall|j: int| 0 <= j < rels.len() && depends_from(#[trigger] rels[j], src) ==> text_le(t, rels[j].target_spec_id@)
        },
    decreases rels.len(),
{
    if rels.len() > 0 {
        let pre = rels.drop_last();
        let r = rels.last();
        lemma_parent_is_least_target(pre, src);
        assert forall|j: int| 0 <= j < pre.len() implies #[trigger] pre[j] == rels[j] by {}
        let n = rels.len() - 1;
        assert(rels[n] == r);
        if depends_from(r, src) {
            lemma_text_lt_irreflexive(r.target_spec_id@);
            match parent_of(pre, src) {
                Some(t0) => {
                    let j0 = choose|j: int| 0 <= j < pre.len() && depends_from(#[trigger] pre[j], src) && pre[j].target_spec_id@ == t0;
                    assert(rels[j0] == pre[j0]);
                    if text_lt(r.target_spec_id@, t0) {
                        assert forall|j: int| 0 <= j < rels.len() && depends_from(#[trigger] rels[j], src) implies text_le(
                            r.target_spec_id@,
                            rels[j].target_spec_id@,
                        ) by {
                            if j < n {
                                assert(pre[j] == rels[j]);
                                if text_lt(rels[j].target_spec_id@, r.target_spec_id@) {
                                    lemma_text_lt_transitive(rels[j].target_spec_id@, r.target_spec_id@, t0);
                                }
                            }
                        }
                    } else {
                        assert forall|j: int| 0 <= j < rels.len() && depends_from(#[trigger] rels[j], src) implies text_le(
                            t0,
                            rels[j].target_spec_id@,
                        ) by {
                            if j < n {
                                assert(pre[j] == rels[j]);
                            }
                        }
                    }
                },
                None => {
                    assert forall|j: int| 0 <= j < rels.len() && depends_from(#[trigger] rels[j], src) implies text_le(
                        r.target_spec_id@,
                        rels[j].target_spec_id@,
                    ) by {
                        if j < n {
                            assert(pre[j] == rels[j]);
                            assert(!depends_from(pre[j], src));
                        }
                    }
                },
            }
        } else {
            match parent_of(pre, src) {
                Some(t0) => {
                    let j0 = choose|j: int| 0 <= j < pre.len() && depends_from(#[trigger] pre[j], src) && pre[j].target_spec_id@ == t0;
                    assert(rels[j0] == pre[j0]);
                    assert forall|j: int| 0 <= j < rels.len() && depends_from(#[trigger] rels[j], src) implies text_le(
                        t0,
                        rels[j].target_spec_id@,
                    ) by {
                        assert(j < n);
                        assert(pre[j] == rels[j]);
                    }
                },
                None => {
                    assert forall|j: int| 0 <= j < rels.len() implies !depends_from(#[trigger] rels[j], src) by {
                        if j < n {
                            assert(pre[j] == rels[j]);
                        }
                    }
                },
            }
        }
    }
}

/// The value of the first pair of `pairs` whose key is `key`.
pub open spec fn pair_lookup(pairs: Seq<(String, String)>, key: Seq<char>) -> Option<Seq<char>>
    decreases pairs.len(),
{
    if pairs.len() == 0 {
        None
    } else if pairs[0].0@ == key {
        Some(pairs[0].1@)
    } else {
        pair_lookup(pairs.drop_first(), key)
    }
}

/// The keys of `pairs` are pairwise distinct.
pub open spec fn distinct_keys(pairs: Seq<(String, String)>) -> bool {
    forall|a: int, b: int| 0 <= a < b < pairs.len() ==> (#[trigger] pairs[a]).0@ != (#[trigger] pairs[b]).0@
}

proof fn lemma_pair_lookup_at(pairs: Seq<(String, String)>, k: int)
    requires
        distinct_keys(pairs),
        0 <= k < pairs.len(),
    ensures
        pair_lookup(pairs, pairs[k].0@) == Some(pairs[k].1@),
    decreases k,
{
    if k > 0 {
        assert(pairs[0].0@ != pairs[k].0@);
        assert(pairs.drop_first()[k - 1] == pairs[k]);
        lemma_pair_lookup_at(pairs.drop_first(), k - 1);
    }
}

proof fn lemma_pair_lookup_none(pairs: Seq<(String, String)>, key: Seq<char>)
    requires
        forall|k: int| 0 <= k < pairs.len() ==> (#[trigger] pairs[k]).0@ != key,
    ensures
        pair_lookup(pairs, key) is None,
    decreases pairs.len(),
{
    if pairs.len() > 0 {
        assert(pairs[0].0@ != key);
        assert forall|k: int| 0 <= k < pairs.drop_first().len() implies (#[trigger] pairs.drop_first()[k]).0@ != key by {
            assert(pairs.drop_first()[k] == pairs[k + 1]);
        }
        lemma_pair_lookup_none(pairs.drop_first(), key);
    }
}

/// The parent of each spec that depends on another: the least `depends_on` target of it in
/// text order. One pair per source, in order of first appearance.
pub fn depends_on_parent_map(relations: &[SpecRelation]) -> (r: Vec<(String, String)>)
    ensures
        distinct_keys(r@),
        forall|src: Seq<char>| #[trigger] pair_lookup(r@, src) == parent_of(relations@, src),
{
    let ghost rels = relations@;
    let mut best: Vec<(String, String)> = Vec::new();
    let mut i: usize = 0;
    while i < relations.len()
        invariant
            rels == relations@,
            i <= rels.len(),
            distinct_keys(best@),
            forall|k: int| 0 <= k < best@.len() ==>
                parent_of(rels.subrange(0, i as int), (#[trigger] best@[k]).0@) == Some(best@[k].1@),
            forall|src: Seq<char>| #[trigger] parent_of(rels.subrange(0, i as int), src) is Some ==>
                exists|k: int| 0 <= k < best@.len() && (#[trigger] best@[k]).0@ == src,
        decreases rels.len() - i,
    {
        let rel = &relations[i];
        let ghost pre = rels.subrange(0, i as int);
        let ghost post = rels.subrange(0, i + 1);
        assert(post.drop_last() =~= pre);
        assert(post.last() == *rel);
        if str_eq(rel.relation_kind.as_str(), "depends_on") {
            let mut k: usize = 0;
            while k < best.len() && !str_eq(best[k].0.as_str(), rel.source_spec_id.as_str())
                invariant
                    k <= best@.len(),
                    forall|j: int| 0 <= j < k ==> (#[trigger] best@[j]).0@ != rel.source_spec_id@,
                decreases best@.len() - k,
            {
                k = k + 1;
            }
            let ghost old_best = best@;
            if k < best.len() {
                if text_lt_exec(rel.target_spec_id.as_str(), best[k].1.as_str()) {
                    let key = best[k].0.clone();
                    best.set(k, (key, rel.target_spec_id.clone()));
                }
                assert forall|j: int| 0 <= j < best@.len() implies
                    parent_of(post, (#[trigger] best@[j]).0@) == Some(best@[j].1@) by {
                    assert(best@[j].0@ == old_best[j].0@);
                    if j != k {
                        assert(old_best[j].0@ != old_best[k as int].0@);
                    }
                }
                assert forall|src: Seq<char>| #[trigger] parent_of(post, src) is Some implies
                    exists|j: int| 0 <= j < best@.len() && (#[trigger] best@[j]).0@ == src by {
                    if parent_of(pre, src) is Some {
                        let j = choose|j: int| 0 <= j < old_best.len() && (#[trigger] old_best[j]).0@ == src;
                        assert(best@[j].0@ == src);
                    } else {
                        assert(best@[k as int].0@ == src);
                    }
                }
            } else {
                proof {
                    assert forall|src: Seq<char>| src == rel.source_spec_id@ implies
                        !(#[trigger] parent_of(pre, src) is Some) by {
                        if parent_of(pre, src) is Some {
                            let j = choose|j: int| 0 <= j < old_best.len() && (#[trigger] old_best[j]).0@ == src;
                            assert(old_best[j].0@ != rel.source_spec_id@);
                        }
                    }
                }
                best.push((rel.source_spec_id.clone(), rel.target_spec_id.clone()));
                assert forall|j: int| 0 <= j < best@.len() implies
                    parent_of(post, (#[trigger] best@[j]).0@) == Some(best@[j].1@) by {
                    if j < old_best.len() {
                        assert(best@[j] == old_best[j]);
                        assert(old_best[j].0@ != rel.source_spec_id@);
                    }
                }
                assert forall|src: Seq<char>| #[trigger] parent_of(post, src) is Some implies
                    exists|j: int| 0 <= j < best@.len() && (#[trigger] best@[j]).0@ == src by {
                    if parent_of(pre, src) is Some {
                        let j = choose|j: int| 0 <= j < old_best.len() && (#[trigger] old_best[j]).0@ == src;
                        assert(best@[j] == old_best[j]);
                    } else {
                        assert(best@[old_best.len() as int].0@ == src);
                    }
                }
            }
        } else {
            assert forall|src: Seq<char>| #[trigger] parent_of(post, src) is Some implies
                exists|j: int| 0 <= j < best@.len() && (#[trigger] best@[j]).0@ == src by {
                assert(parent_of(pre, src) is Some);
            }
            assert forall|j: int| 0 <= j < best@.len() implies
                parent_of(post, (#[trigger] best@[j]).0@) == Some(best@[j].1@) by {
                assert(parent_of(pre, best@[j].0@) == Some(best@[j].1@));
            }
        }
        i = i + 1;
    }
    assert(rels.subrange(0, rels.len() as int) =~= rels);
    proof {
        assert forall|src: Seq<char>| #[trigger] pair_lookup(best@, src) == parent_of(rels, src) by {
            if parent_of(rels, src) is Some {
                let k = choose|k: int| 0 <= k < best@.len() && (#[trigger] best@[k]).0@ == src;
                lemma_pair_lookup_at(best@, k);
            } else {
                assert forall|k: int| 0 <= k < best@.len() implies (#[trigger] best@[k]).0@ != src by {
                    if best@[k].0@ == src {
                        assert(parent_of(rels, best@[k].0@) == Some(best@[k].1@));
                    }
                }
                lemma_pair_lookup_none(best@, src);
            }
        }
    }
    best
}

/// The slug of the last spec of `specs` whose id is `id`, if one has it.
pub open spec fn slug_for(specs: Seq<Spec>, id: Seq<char>) -> Option<Seq<char>>
    decreases specs.len(),
{
    if specs.len() == 0 {
        None
    } else if specs.last().id@ == id {
        Some(specs.last().slug@)
    } else {
        slug_for(specs.drop_last(), id)
    }
}

/// The next spec up a chain of spec ids that starts at a leaf: the parent of its last
/// id, where that parent is a spec of `specs` and not on the chain yet.
pub open spec fn next_up(
    parent: spec_fn(Seq<char>) -> Option<Seq<char>>,
    specs: Seq<Spec>,
    chain: Seq<Seq<char>>,
) -> Option<Seq<char>> {
    match parent(chain.last()) {
        Some(p) => if slug_for(specs, p) is Some && !chain.contains(p) { Some(p) } else { None },
        None => None,
    }
}

/// `chain` extended upward, one parent at a time, at most `steps` times.
pub open spec fn climb(
    parent: spec_fn(Seq<char>) -> Option<Seq<char>>,
    specs: Seq<Spec>,
    chain: Seq<Seq<char>>,
    steps: nat,
) -> Seq<Seq<char>>
    decreases steps,
{
    if steps == 0 {
        chain
    } else {
        match next_up(parent, specs, chain) {
            Some(p) => climb(parent, specs, chain.push(p), (steps - 1) as nat),
            None => chain,
        }
    }
}

/// The slugs of the ids of `chain` from its last id to its first, leaving out ids that
/// no spec of `specs` has.
pub open spec fn slugs_root_first(specs: Seq<Spec>, chain: Seq<Seq<char>>) -> Seq<Seq<char>>
    decreases chain.len(),
{
    if chain.len() == 0 {
        Seq::empty()
    } else {
        let rest = slugs_root_first(specs, chain.drop_first());
        match slug_for(specs, chain[0]) {
            Some(s) => rest.push(s),
            None => rest,
        }
    }
}

/// The ancestry of `leaf` (root first, `leaf` last) as the parents in `pairs` give it,
/// as slugs. The walk stops at an id without parent, at a parent that no spec has, and
/// where it would come back to an id that it has passed.
pub open spec fn ancestry_slugs(leaf: Seq<char>, specs: Seq<Spec>, pairs: Seq<(String, String)>) -> Seq<Seq<char>> {
    slugs_root_first(specs, ancestry_ids(leaf, specs, pairs))
}

/// The spec ids of the ancestry walk from `leaf` upward along the parents in `pairs`.
pub open spec fn ancestry_ids(leaf: Seq<char>, specs: Seq<Spec>, pairs: Seq<(String, String)>) -> Seq<Seq<char>> {
    climb(|id: Seq<char>| pair_lookup(pairs, id), specs, seq![leaf], specs.len())
}

proof fn lemma_slug_for_some(specs: Seq<Spec>, id: Seq<char>)
    ensures
        slug_for(specs, id) is Some ==> exists|j: int| 0 <= j < specs.len() && (#[trigger] specs[j]).id@ == id,
    decreases specs.len(),
{
    if specs.len() > 0 {
        lemma_slug_for_some(specs.drop_last(), id);
        if slug_for(specs.drop_last(), id) is Some && specs.last().id@ != id {
            let j = choose|j: int| 0 <= j < specs.drop_last().len() && (#[trigger] specs.drop_last()[j]).id@ == id;
            assert(specs[j] == specs.drop_last()[j]);
        }
        if specs.last().id@ == id {
            assert(specs[specs.len() - 1].id@ == id);
        }
    }
}

/// Distinct ids that specs of `specs` have are at most as many as the specs.
proof fn lemma_distinct_known_ids_bounded(ids: Seq<Seq<char>>, specs: Seq<Spec>)
    requires
        ids.no_duplicates(),
        forall|k: int| 0 <= k < ids.len() ==> slug_for(specs, #[trigger] ids[k]) is Some,
    ensures
        ids.len() <= specs.len(),
{
    broadcast use vstd::seq_lib::seq_to_set_is_finite;
    let all = specs.map_values(|sp: Spec| sp.id@);
    ids.unique_seq_to_set();
    all.lemma_cardinality_of_set();
    assert forall|x: Seq<char>| ids.to_set().contains(x) implies all.to_set().contains(x) by {
        let k = choose|k: int| 0 <= k < ids.len() && ids[k] == x;
        lemma_slug_for_some(specs, ids[k]);
        let j = choose|j: int| 0 <= j < specs.len() && (#[trigger] specs[j]).id@ == x;
        assert(all[j] == x);
    }
    vstd::set_lib::lemma_len_subset(ids.to_set(), all.to_set());
}

proof fn lemma_climb_extends(
    parent: spec_fn(Seq<char>) -> Option<Seq<char>>,
    specs: Seq<Spec>,
    chain: Seq<Seq<char>>,
    steps: nat,
)
    ensures
        climb(parent, specs, chain, steps).len() >= chain.len(),
        climb(parent, specs, chain, steps).subrange(0, chain.len() as int) == chain,
    decreases steps,
{
    let c = climb(parent, specs, chain, steps);
    if steps == 0 {
        assert(c.subrange(0, chain.len() as int) =~= chain);
    } else {
        match next_up(parent, specs, chain) {
            Some(p) => {
                lemma_climb_extends(parent, specs, chain.push(p), (steps - 1) as nat);
                assert(c.subrange(0, chain.len() as int) =~= c.subrange(0, chain.len() + 1 as int).subrange(0, chain.len() as int));
                assert(c.subrange(0, chain.len() + 1 as int) == chain.push(p));
                assert(chain.push(p).subrange(0, chain.len() as int) =~= chain);
            },
            None => {
                assert(c.subrange(0, chain.len() as int) =~= chain);
            },
        }
    }
}

/// The ancestry of a spec that `specs` has ends with that spec's own slug.
pub proof fn lemma_ancestry_ends_with_leaf(leaf: Seq<char>, specs: Seq<Spec>, pairs: Seq<(String, String)>)
    requires
        slug_for(specs, leaf) is Some,
    ensures
        ancestry_slugs(leaf, specs, pairs).len() >= 1,
        ancestry_slugs(leaf, specs, pairs).last() == slug_for(specs, leaf)->0,
{
    let parent = |id: Seq<char>| pair_lookup(pairs, id);
    let c = climb(parent, specs, seq![leaf], specs.len());
    lemma_climb_extends(parent, specs, seq![leaf], specs.len());
    assert(c[0] == c.subrange(0, 1)[0]);
    assert(c[0] == leaf);
}

proof fn lemma_climb_distinct(
    parent: spec_fn(Seq<char>) -> Option<Seq<char>>,
    specs: Seq<Spec>,
    chain: Seq<Seq<char>>,
    steps: nat,
)
    requires
        chain.len() >= 1,
        chain.no_duplicates(),
        forall|k: int| 1 <= k < chain.len() ==> slug_for(specs, #[trigger] chain[k]) is Some,
    ensures
        climb(parent, specs, chain, steps).no_duplicates(),
        forall|k: int|
            1 <= k < climb(parent, specs, chain, steps).len() ==> slug_for(
                specs,
                #[trigger] climb(parent, specs, chain, steps)[k],
            ) is Some,
    decreases steps,
{
    if steps > 0 {
        if let Some(p) = next_up(parent, specs, chain) {
            let c2 = chain.push(p);
            assert forall|k: int| 1 <= k < c2.len() implies slug_for(specs, #[trigger] c2[k]) is Some by {
                if k < chain.len() {
                    assert(c2[k] == chain[k]);
                }
            }
            lemma_climb_distinct(parent, specs, c2, (steps - 1) as nat);
        }
    }
}

/// The walk up an ancestry passes each spec id at most once, and every id above the leaf
/// is the id of a spec of `specs`.
pub proof fn lemma_ancestry_ids_distinct(leaf: Seq<char>, specs: Seq<Spec>, pairs: Seq<(String, String)>)
    ensures
        ancestry_ids(leaf, specs, pairs).no_duplicates(),
        ancestry_ids(leaf, specs, pairs)[0] == leaf,
        forall|k: int|
            1 <= k < ancestry_ids(leaf, specs, pairs).len() ==> slug_for(
                specs,
                #[trigger] ancestry_ids(leaf, specs, pairs)[k],
            ) is Some,
{
    lemma_climb_extends(|id: Seq<char>| pair_lookup(pairs, id), specs, seq![leaf], specs.len());
    assert(ancestry_ids(leaf, specs, pairs)[0] == ancestry_ids(leaf, specs, pairs).subrange(0, 1)[0]);
    lemma_climb_distinct(|id: Seq<char>| pair_lookup(pairs, id), specs, seq![leaf], specs.len());
}

fn slug_lookup(specs: &[Spec], id: &str) -> (r: Option<String>)
    ensures
        match r {
            Some(s) => slug_for(specs@, id@) == Some(s@),
            None => slug_for(specs@, id@) is None,
        },
{
    let mut j: usize = specs.len();
    assert(specs@.subrange(0, j as int) =~= specs@);
    while j > 0
        invariant
            j <= specs@.len(),
            slug_for(specs@, id@) == slug_for(specs@.subrange(0, j as int), id@),
        decreases j,
    {
        let ghost sub = specs@.subrange(0, j as int);
        assert(sub.last() == specs@[j - 1]);
        assert(sub.drop_last() =~= specs@.subrange(0, j - 1));
        if str_eq(specs[j - 1].id.as_str(), id) {
            return Some(specs[j - 1].slug.clone());
        }
        j = j - 1;
    }
    assert(specs@.subrange(0, 0) =~= Seq::<Spec>::empty());
    None
}

fn pair_value(pairs: &[(String, String)], key: &str) -> (r: Option<String>)
    ensures
        match r {
            Some(v) => pair_lookup(pairs@, key@) == Some(v@),
            None => pair_lookup(pairs@, key@) is None,
        },
{
    let mut i: usize = 0;
    assert(pairs@.subrange(0, pairs@.len() as int) =~= pairs@);
    while i < pairs.len()
        invariant
            i <= pairs@.len(),
            pair_lookup(pairs@, key@) == pair_lookup(pairs@.subrange(i as int, pairs@.len() as int), key@),
        decreases pairs@.len() - i,
    {
        let ghost sub = pairs@.subrange(i as int, pairs@.len() as int);
        assert(sub[0] == pairs@[i as int]);
        assert(sub.drop_first() =~= pairs@.subrange(i + 1, pairs@.len() as int));
        if str_eq(pairs[i].0.as_str(), key) {
            return Some(pairs[i].1.clone());
        }
        i = i + 1;
    }
    None
}

/// The views of a list of strings.
pub open spec fn views(v: Seq<String>) -> Seq<Seq<char>> {
    v.map_values(|s: String| s@)
}

fn contains_text(v: &Vec<String>, x: &str) -> (r: bool)
    ensures
        r == views(v@).contains(x@),
{
    let mut i: usize = 0;
    while i < v.len()
        invariant
            i <= v@.len(),
            forall|k: int| 0 <= k < i ==> (#[trigger] v@[k])@ != x@,
        decreases v@.len() - i,
    {
        if str_eq(v[i].as_str(), x) {
            assert(views(v@)[i as int] == x@);
            return true;
        }
        i = i + 1;
    }
    proof {
        if views(v@).contains(x@) {
            let k = choose|k: int| 0 <= k < views(v@).len() && views(v@)[k] == x@;
            assert(v@[k]@ == x@);
        }
    }
    false
}

/// The slugs of the ancestry of the spec `leaf_spec_id` along the parents `parents`, root
/// first; a spec that depends on nothing known is its own whole ancestry.
pub fn spec_slug_path(leaf_spec_id: &str, specs: &[Spec], parents: &[(String, String)]) -> (r: Vec<String>)
    ensures
        views(r@) == ancestry_slugs(leaf_spec_id@, specs@, parents@),
{
    let ghost parent = |id: Seq<char>| pair_lookup(parents@, id);
    let ghost n = specs@.len();
    let ghost target = climb(parent, specs@, seq![leaf_spec_id@], n);
    let mut chain: Vec<String> = Vec::new();
    chain.push(owned(leaf_spec_id));
    assert(views(chain@) =~= seq![leaf_spec_id@]);
    loop
        invariant
            n == specs@.len(),
            parent == (|id: Seq<char>| pair_lookup(parents@, id)),
            views(chain@).len() >= 1,
            views(chain@).no_duplicates(),
            forall|k: int| 1 <= k < views(chain@).len() ==> slug_for(specs@, #[trigger] views(chain@)[k]) is Some,
            views(chain@).len() <= n + 1,
            target == climb(parent, specs@, views(chain@), (n + 1 - views(chain@).len()) as nat),
        ensures
            target == views(chain@),
        decreases n + 1 - chain@.len(),
    {
        let ghost c = views(chain@);
        let ghost steps = (n + 1 - c.len()) as nat;
        let last = chain.len() - 1;
        assert(c.last() == chain@[last as int]@);
        assert(parent(c.last()) == pair_lookup(parents@, c.last()));
        let found = pair_value(parents, chain[last].as_str());
        match found {
            None => {
                assert(next_up(parent, specs@, c) is None);
                assert(climb(parent, specs@, c, steps) == c);
                break;
            },
            Some(p) => {
                let known = slug_lookup(specs, p.as_str());
                if known.is_none() {
                    assert(next_up(parent, specs@, c) is None);
                    assert(climb(parent, specs@, c, steps) == c);
                    break;
                }
                if contains_text(&chain, p.as_str()) {
                    assert(next_up(parent, specs@, c) is None);
                    assert(climb(parent, specs@, c, steps) == c);
                    break;
                }
                let ghost c2 = c.push(p@);
                proof {
                    assert(c2.no_duplicates());
                    assert forall|k: int| 0 <= k < c2.drop_first().len() implies
                        slug_for(specs@, #[trigger] c2.drop_first()[k]) is Some by {
                        assert(c2.drop_first()[k] == c2[k + 1]);
                    }
                    assert(c2.drop_first().no_duplicates());
                    lemma_distinct_known_ids_bounded(c2.drop_first(), specs@);
                    assert(next_up(parent, specs@, c) == Some(p@));
                }
                chain.push(p);
                assert(views(chain@) =~= c2);
            },
        }
    }
    let mut out: Vec<String> = Vec::new();
    let mut i: usize = chain.len();
    assert(views(chain@).subrange(i as int, i as int) =~= Seq::<Seq<char>>::empty());
    while i > 0
        invariant
            i <= chain@.len(),
            views(out@) == slugs_root_first(specs@, views(chain@).subrange(i as int, chain@.len() as int)),
        decreases i,
    {
        let ghost c = views(chain@);
        let ghost sub = c.subrange(i - 1, c.len() as int);
        assert(sub.drop_first() =~= c.subrange(i as int, c.len() as int));
        assert(sub[0] == chain@[i - 1]@);
        let slug = slug_lookup(specs, chain[i - 1].as_str());
        match slug {
            Some(sl) => {
                out.push(sl);
                assert(views(out@) =~= slugs_root_first(specs@, c.subrange(i as int, c.len() as int)).push(sl@));
            },
            None => {},
        }
        i = i - 1;
    }
    assert(views(chain@).subrange(0, chain@.len() as int) =~= views(chain@));
    out
}

} // verus!
