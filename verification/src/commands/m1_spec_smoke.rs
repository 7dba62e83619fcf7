//! `m1-spec-smoke`: the fixture rows written to the isolated test world, the checks on what
//! reads back, and the relation count.
use vstd::prelude::*;

use crate::models::{AcceptanceCriterion, Spec, SpecRelation, slug_of};
use crate::text::{append_str, debug_quote, debug_quoted, owned, str_eq, string_from_chars};

verus! {

/// Id of the fixture spec.
pub const SMOKE_SPEC_ID: &'static str = "M1-SMOKE-SPEC-1";

/// Id of the fixture acceptance criterion.
pub const SMOKE_AC_ID: &'static str = "M1-SMOKE-AC-1";

/// Id of the fixture relation.
pub const SMOKE_REL_ID: &'static str = "M1-SMOKE-REL-1";

/// The fixture spec.
pub fn smoke_fixture_spec() -> (r: Spec)
    ensures
        r.id@ == SMOKE_SPEC_ID@,
        r.slug@ == slug_of(SMOKE_SPEC_ID@),
        r.title@ == "M1 spec store smoke fixture"@,
        r.description@ == "m1-spec-smoke persistence check"@,
        r.level == crate::models::SpecLevel::Module,
        r.status == crate::models::SpecStatus::Draft,
        r.created_at@ == "m1-smoke"@,
        r.updated_at@ == "m1-smoke"@,
{
    let mut spec = Spec::new(SMOKE_SPEC_ID, "M1 spec store smoke fixture");
    spec.description = owned("m1-spec-smoke persistence check");
    spec.created_at = owned("m1-smoke");
    spec.updated_at = owned("m1-smoke");
    spec
}

/// The fixture acceptance criterion, under the fixture spec.
pub fn smoke_fixture_ac() -> (r: AcceptanceCriterion)
    ensures
        r.id@ == SMOKE_AC_ID@,
        r.spec_id@ == SMOKE_SPEC_ID@,
        r.slug@ == slug_of(SMOKE_AC_ID@),
        r.title@ == "M1 smoke AC"@,
        r.intent@ == "verify put/list/read for acceptance_criteria"@,
        r.review_mode == crate::models::ReviewMode::Manual,
        r.risk_level == crate::models::RiskLevel::Medium,
        r.concerns@.len() == 0,
        r.created_at@ == "m1-smoke"@,
        r.updated_at@ == "m1-smoke"@,
{
    let mut ac = AcceptanceCriterion::new(SMOKE_AC_ID, SMOKE_SPEC_ID, "M1 smoke AC");
    ac.intent = owned("verify put/list/read for acceptance_criteria");
    ac.created_at = owned("m1-smoke");
    ac.updated_at = owned("m1-smoke");
    ac
}

/// The fixture relation: the fixture spec to itself.
pub fn smoke_fixture_relation() -> (r: SpecRelation)
    ensures
        r.id@ == SMOKE_REL_ID@,
        r.source_spec_id@ == SMOKE_SPEC_ID@,
        r.target_spec_id@ == SMOKE_SPEC_ID@,
        r.relation_kind@ == "smoke_example"@,
        r.note@ == "m1-spec-smoke relation round-trip"@,
{
    SpecRelation::new(SMOKE_REL_ID, SMOKE_SPEC_ID, SMOKE_SPEC_ID, "smoke_example", "m1-spec-smoke relation round-trip")
}

/// The check on the spec read back: it is there and keeps the title written.
pub open spec fn loaded_spec_check(loaded: Option<Spec>, written: Spec) -> Result<(), Seq<char>> {
    match loaded {
        None => Err("expected spec M1-SMOKE-SPEC-1 after put"@),
        Some(s) => if s.title@ != written.title@ {
            Err("spec title mismatch: got "@ + debug_quoted(s.title@) + ", want "@ + debug_quoted(written.title@))
        } else {
            Ok(())
        },
    }
}

/// Checks the spec read back against the one written.
pub fn check_loaded_spec(loaded: Option<&Spec>, written: &Spec) -> (r: Result<(), String>)
    ensures
        match r {
            Ok(()) => loaded_spec_check(
                match loaded {
                    Some(s) => Some(*s),
                    None => None,
                },
                *written,
            ) is Ok,
            Err(m) => loaded_spec_check(
                match loaded {
                    Some(s) => Some(*s),
                    None => None,
                },
                *written,
            ) == Err::<(), Seq<char>>(m@),
        },
{
    match loaded {
        None => Err(owned("expected spec M1-SMOKE-SPEC-1 after put")),
        Some(s) => {
            if !str_eq(s.title.as_str(), written.title.as_str()) {
                let mut m: Vec<char> = Vec::new();
                append_str(&mut m, "spec title mismatch: got ");
                let a = debug_quote(s.title.as_str());
                append_str(&mut m, a.as_str());
                append_str(&mut m, ", want ");
                let b = debug_quote(written.title.as_str());
                append_str(&mut m, b.as_str());
                Err(string_from_chars(m.as_slice()))
            } else {
                Ok(())
            }
        },
    }
}

/// Some row of `ids` is `id`.
pub open spec fn has_id(ids: Seq<Seq<char>>, id: Seq<char>) -> bool {
    exists|k: int| 0 <= k < ids.len() && ids[k] == id
}

fn contains_id(ids: &[&str], id: &str) -> (r: bool)
    ensures
        r == has_id(ids@.map_values(|s: &str| s@), id@),
{
    let ghost v = ids@.map_values(|s: &str| s@);
    let mut i: usize = 0;
    while i < ids.len()
        invariant
            i <= ids@.len(),
            v == ids@.map_values(|s: &str| s@),
            forall|k: int| 0 <= k < i ==> v[k] != id@,
        decreases ids@.len() - i,
    {
        if str_eq(ids[i], id) {
            assert(v[i as int] == id@);
            return true;
        }
        i = i + 1;
    }
    false
}

/// Checks that the criteria listed for the fixture spec hold the fixture criterion.
pub fn check_listed_ac(ac_ids: &[&str]) -> (r: Result<(), String>)
    ensures
        r is Ok <==> has_id(ac_ids@.map_values(|s: &str| s@), SMOKE_AC_ID@),
        r matches Err(m) ==> m@ == "acceptance criterion not found after put"@,
{
    if contains_id(ac_ids, SMOKE_AC_ID) {
        Ok(())
    } else {
        Err(owned("acceptance criterion not found after put"))
    }
}

/// Checks that the relations listed for the fixture spec hold the fixture relation.
pub fn check_listed_relation(relation_ids: &[&str]) -> (r: Result<(), String>)
    ensures
        r is Ok <==> has_id(relation_ids@.map_values(|s: &str| s@), SMOKE_REL_ID@),
        r matches Err(m) ==> m@ == "spec relation not found after put"@,
{
    if contains_id(relation_ids, SMOKE_REL_ID) {
        Ok(())
    } else {
        Err(owned("spec relation not found after put"))
    }
}

/// The number of distinct ids among `ids`.
pub open spec fn distinct_count(ids: Seq<Seq<char>>) -> nat {
    ids.to_set().len()
}

/// How many distinct ids `ids` holds (a relation listed under both its specs counts once).
pub fn count_distinct_ids(ids: &[String]) -> (r: usize)
    ensures
        r == distinct_count(ids@.map_values(|s: String| s@)),
{
    let ghost v = ids@.map_values(|s: String| s@);
    let mut seen: Vec<String> = Vec::new();
    let mut i: usize = 0;
    while i < ids.len()
        invariant
            i <= ids@.len(),
            v == ids@.map_values(|s: String| s@),
            seen@.len() <= i,
            seen@.map_values(|s: String| s@).to_set() == v.subrange(0, i as int).to_set(),
            seen@.map_values(|s: String| s@).no_duplicates(),
        decreases ids@.len() - i,
    {
        let ghost sv = seen@.map_values(|s: String| s@);
        let mut j: usize = 0;
        let mut found = false;
        while j < seen.len()
            invariant
                i < ids@.len(),
                j <= seen@.len(),
                sv == seen@.map_values(|s: String| s@),
                !found ==> forall|k: int| 0 <= k < j ==> sv[k] != ids@[i as int]@,
                found ==> sv.contains(ids@[i as int]@),
            decreases seen@.len() - j,
        {
            if str_eq(seen[j].as_str(), ids[i].as_str()) {
                found = true;
                assert(sv[j as int] == ids@[i as int]@);
            }
            j = j + 1;
        }
        assert(v.subrange(0, i + 1) =~= v.subrange(0, i as int).push(v[i as int]));
        proof {
            v.subrange(0, i as int).lemma_push_to_set_commute(v[i as int]);
            sv.lemma_push_to_set_commute(v[i as int]);
            assert(ids@[i as int]@ == v[i as int]);
        }
        if !found {
            let x = ids[i].clone();
            assert(x@ == v[i as int]);
            seen.push(x);
            assert(seen@.map_values(|s: String| s@) =~= sv.push(v[i as int]));
            proof {
                assert(!sv.contains(v[i as int]));
            }
        } else {
            proof {
                assert(sv.to_set().contains(v[i as int]));
                assert(sv.to_set().insert(v[i as int]) =~= sv.to_set());
            }
        }
        i = i + 1;
    }
    assert(v.subrange(0, i as int) =~= v);
    proof {
        seen@.map_values(|s: String| s@).unique_seq_to_set();
    }
    seen.len()
}

} // verus!
