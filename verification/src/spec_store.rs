//! Row decoding and write checks for the spec module (specs, acceptance criteria).
use vstd::prelude::*;

use crate::models::{AcceptanceCriterion, ConcernKind, ReviewMode, RiskLevel, Spec, SpecLevel, SpecStatus};
use crate::text::{append_str, concat2, concat3, debug_quote, debug_quoted, string_from_chars};

verus! {

/// Columns of a `specs` row: id, slug, title, description, level, status, created, updated.
pub type SpecRow = (String, String, String, String, String, String, String, String);

/// Columns of an `acceptance_criteria` row: id, spec_id, slug, title, intent, review_mode,
/// risk_level, created, updated.
pub type AcceptanceCriterionRow = (
    String,
    String,
    String,
    String,
    String,
    String,
    String,
    String,
    String,
);

/// Decodes a `specs` row; unknown level or status text is an error.
pub fn spec_from_row(row: SpecRow) -> (r: Result<Spec, String>)
    ensures
        r is Ok <==> SpecLevel::from_db_label(row.4@) is Some && SpecStatus::from_db_label(row.5@) is Some,
        r matches Ok(s) ==> {
            &&& s.id == row.0
            &&& s.slug == row.1
            &&& s.title == row.2
            &&& s.description == row.3
            &&& Some(s.level) == SpecLevel::from_db_label(row.4@)
            &&& Some(s.status) == SpecStatus::from_db_label(row.5@)
            &&& s.created_at == row.6
            &&& s.updated_at == row.7
        },
        r matches Err(m) ==> m@ == if SpecLevel::from_db_label(row.4@) is None {
            "unknown spec level: "@ + row.4@
        } else {
            "unknown spec status: "@ + row.5@
        },
{
    let (id, slug, title, description, level, status, created_at, updated_at) = row;
    let level = match SpecLevel::from_db_str(level.as_str()) {
        Some(l) => l,
        None => return Err(concat2("unknown spec level: ", level.as_str())),
    };
    let status = match SpecStatus::from_db_str(status.as_str()) {
        Some(s) => s,
        None => return Err(concat2("unknown spec status: ", status.as_str())),
    };
    Ok(Spec { id, slug, title, description, level, status, created_at, updated_at })
}

/// Decodes an `acceptance_criteria` row (concerns empty); unknown review mode or risk level text
/// is an error.
pub fn acceptance_criterion_from_row(row: AcceptanceCriterionRow) -> (r: Result<AcceptanceCriterion, String>)
    ensures
        r is Ok <==> ReviewMode::from_db_label(row.5@) is Some && RiskLevel::from_db_label(row.6@) is Some,
        r matches Ok(a) ==> {
            &&& a.id == row.0
            &&& a.spec_id == row.1
            &&& a.slug == row.2
            &&& a.title == row.3
            &&& a.intent == row.4
            &&& Some(a.review_mode) == ReviewMode::from_db_label(row.5@)
            &&& Some(a.risk_level) == RiskLevel::from_db_label(row.6@)
            &&& a.concerns@.len() == 0
            &&& a.created_at == row.7
            &&& a.updated_at == row.8
        },
        r matches Err(m) ==> m@ == if ReviewMode::from_db_label(row.5@) is None {
            "unknown review mode: "@ + row.5@
        } else {
            "unknown risk level: "@ + row.6@
        },
{
    let (id, spec_id, slug, title, intent, review_mode, risk_level, created_at, updated_at) = row;
    let review_mode = match ReviewMode::from_db_str(review_mode.as_str()) {
        Some(m) => m,
        None => return Err(concat2("unknown review mode: ", review_mode.as_str())),
    };
    let risk_level = match RiskLevel::from_db_str(risk_level.as_str()) {
        Some(l) => l,
        None => return Err(concat2("unknown risk level: ", risk_level.as_str())),
    };
    Ok(
        AcceptanceCriterion {
            id,
            spec_id,
            slug,
            title,
            intent,
            review_mode,
            risk_level,
            concerns: Vec::new(),
            created_at,
            updated_at,
        },
    )
}

/// An acceptance criterion may only be stored with a non-empty slug.
pub fn reject_empty_slug(ac: &AcceptanceCriterion) -> (r: Result<(), String>)
    ensures
        r is Ok <==> ac.slug@.len() > 0,
        r matches Err(m) ==> m@ == "acceptance criterion "@ + ac.id@ + ": slug must not be empty"@,
{
    if ac.slug.unicode_len() == 0 {
        return Err(concat3("acceptance criterion ", ac.id.as_str(), ": slug must not be empty"));
    }
    Ok(())
}


/// The refusal when another criterion of the same spec (`clash`, found by the caller's query)
/// already uses the slug.
pub open spec fn duplicate_slug_check(ac: AcceptanceCriterion, clash: Option<Seq<char>>) -> Result<(), Seq<char>> {
    match clash {
        None => Ok(()),
        Some(other) => Err(
            "acceptance criterion slug "@ + debug_quoted(ac.slug@) + " is already used in spec "@ + ac.spec_id@
                + " by "@ + other,
        ),
    }
}

/// An acceptance criterion may not take a slug that another criterion of its spec uses:
/// `clash` is the id of such a criterion, if the caller's lookup found one.
pub fn reject_duplicate_slug_in_spec(ac: &AcceptanceCriterion, clash: Option<&str>) -> (r: Result<(), String>)
    ensures
        match r {
            Ok(()) => duplicate_slug_check(
                *ac,
                match clash {
                    Some(c) => Some(c@),
                    None => None,
                },
            ) is Ok,
            Err(m) => duplicate_slug_check(
                *ac,
                match clash {
                    Some(c) => Some(c@),
                    None => None,
                },
            ) == Err::<(), Seq<char>>(m@),
        },
{
    match clash {
        None => Ok(()),
        Some(other) => {
            let mut m: Vec<char> = Vec::new();
            append_str(&mut m, "acceptance criterion slug ");
            let q = debug_quote(ac.slug.as_str());
            append_str(&mut m, q.as_str());
            append_str(&mut m, " is already used in spec ");
            append_str(&mut m, ac.spec_id.as_str());
            append_str(&mut m, " by ");
            append_str(&mut m, other);
            Err(string_from_chars(m.as_slice()))
        },
    }
}

/// The concerns named by `labels`, in order, or an error naming the first unknown label.
pub open spec fn concerns_from_labels_spec(labels: Seq<Seq<char>>) -> Result<Seq<ConcernKind>, Seq<char>>
    decreases labels.len(),
{
    if labels.len() == 0 {
        Ok(Seq::empty())
    } else {
        match ConcernKind::from_db_label(labels[0]) {
            None => Err("unknown concern_kind value in db: "@ + labels[0]),
            Some(c) => match concerns_from_labels_spec(labels.drop_first()) {
                Err(e) => Err(e),
                Ok(rest) => Ok(seq![c] + rest),
            },
        }
    }
}

/// Decodes the concern labels read for a criterion.
pub fn concerns_from_labels(labels: &[String]) -> (r: Result<Vec<ConcernKind>, String>)
    ensures
        match r {
            Ok(v) => concerns_from_labels_spec(labels@.map_values(|s: String| s@)) == Ok::<Seq<ConcernKind>, Seq<char>>(v@),
            Err(m) => concerns_from_labels_spec(labels@.map_values(|s: String| s@)) == Err::<Seq<ConcernKind>, Seq<char>>(m@),
        },
{
    let ghost all = labels@.map_values(|s: String| s@);
    let mut out: Vec<ConcernKind> = Vec::new();
    let mut i: usize = 0;
    assert(all.subrange(0, all.len() as int) =~= all);
    while i < labels.len()
        invariant
            all == labels@.map_values(|s: String| s@),
            i <= labels@.len(),
            concerns_from_labels_spec(all) == match concerns_from_labels_spec(all.subrange(i as int, all.len() as int)) {
                Err(e) => Err(e),
                Ok(rest) => Ok(out@ + rest),
            },
        decreases labels@.len() - i,
    {
        let ghost rest = all.subrange(i as int, all.len() as int);
        assert(rest.drop_first() =~= all.subrange(i + 1, all.len() as int));
        assert(rest[0] == labels@[i as int]@);
        match ConcernKind::from_db_str(labels[i].as_str()) {
            None => {
                return Err(concat2("unknown concern_kind value in db: ", labels[i].as_str()));
            },
            Some(c) => {
                let ghost before = out@;
                out.push(c);
                proof {
                    match concerns_from_labels_spec(all.subrange(i + 1, all.len() as int)) {
                        Ok(r2) => {
                            assert(before + (seq![c] + r2) =~= out@ + r2);
                        },
                        Err(e) => {},
                    }
                }
            },
        }
        i = i + 1;
    }
    assert(all.subrange(i as int, all.len() as int) =~= Seq::<Seq<char>>::empty());
    assert(out@ + Seq::<ConcernKind>::empty() =~= out@);
    Ok(out)
}

} // verus!
