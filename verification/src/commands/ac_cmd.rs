//! `ac add|list|show`: argument handling, the criterion to store, and the printed lines.
//! The clock and the database are the caller's.
use vstd::prelude::*;

use crate::commands::cli_parse::{ParsedArgs, flag_values, flags_view, parse_args, parse_spec, strings_view};
use crate::commands::spec_cmd::{flag_or, or_default, required_flag, single_of};
use crate::commands::verify_ac_cmd::{escape_tab_field, lines_view, tab_safe};
use crate::models::{AcceptanceCriterion, ConcernKind, ReviewMode, RiskLevel, slug_from_id, slug_of};
use crate::text::{append_str, debug_quote, debug_quoted, join_messages, joined, owned, string_from_chars,
    trim_chars, trim_seq};

verus! {

/// The concern kinds named by `--concern`, in order; an unknown one is an error.
pub open spec fn concerns_spec(vals: Seq<Seq<char>>) -> Result<Seq<ConcernKind>, Seq<char>>
    decreases vals.len(),
{
    if vals.len() == 0 {
        Ok(Seq::empty())
    } else {
        match concerns_spec(vals.drop_last()) {
            Err(m) => Err(m),
            Ok(ks) => match ConcernKind::from_db_label(vals.last()) {
                Some(k) => Ok(ks.push(k)),
                None => Err("unknown --concern "@ + debug_quoted(vals.last())
                    + " (correctness|security|performance|reliability|maintainability)"@),
            },
        }
    }
}

/// The `--concern` values as concern kinds.
pub fn parse_concerns(p: &ParsedArgs) -> (r: Result<Vec<ConcernKind>, String>)
    requires
        p.wf(),
    ensures
        match concerns_spec(flag_values(flags_view(p.flags@), "concern"@)) {
            Ok(ks) => r matches Ok(v) && v@ == ks,
            Err(m) => r matches Err(e) && e@ == m,
        },
{
    let vals = p.multi_flag("concern");
    let ghost vs = flag_values(flags_view(p.flags@), "concern"@);
    let mut out: Vec<ConcernKind> = Vec::new();
    let mut i: usize = 0;
    while i < vals.len()
        invariant
            vs == vals@.map_values(|s: &str| s@),
            vs == flag_values(flags_view(p.flags@), "concern"@),
            i <= vals@.len(),
            concerns_spec(vs.subrange(0, i as int)) == Ok::<Seq<ConcernKind>, Seq<char>>(out@),
        decreases vals@.len() - i,
    {
        let c = vals[i];
        assert(vs.subrange(0, i + 1).drop_last() =~= vs.subrange(0, i as int));
        assert(vs[i as int] == c@);
        match ConcernKind::from_db_str(c) {
            Some(k) => out.push(k),
            None => {
                let mut v: Vec<char> = Vec::new();
                append_str(&mut v, "unknown --concern ");
                append_str(&mut v, debug_quote(c).as_str());
                append_str(&mut v, " (correctness|security|performance|reliability|maintainability)");
                proof {
                    let k = i as int;
                    let pre = vs.subrange(0, k + 1);
                    assert(pre.last() == c@);
                    assert(pre.drop_last() =~= vs.subrange(0, k));
                    assert(concerns_spec(pre) == Err::<Seq<ConcernKind>, Seq<char>>(
                        "unknown --concern "@ + debug_quoted(c@)
                            + " (correctness|security|performance|reliability|maintainability)"@,
                    ));
                    lemma_concerns_error_persists(vs, k + 1);
                    assert(v@ =~= "unknown --concern "@ + debug_quoted(c@)
                        + " (correctness|security|performance|reliability|maintainability)"@);
                }
                return Err(string_from_chars(v.as_slice()));
            },
        }
        i = i + 1;
    }
    assert(vs.subrange(0, vs.len() as int) =~= vs);
    Ok(out)
}

proof fn lemma_concerns_error_persists(vs: Seq<Seq<char>>, k: int)
    requires
        0 < k <= vs.len(),
        concerns_spec(vs.subrange(0, k)) is Err,
    ensures
        concerns_spec(vs) == concerns_spec(vs.subrange(0, k)),
    decreases vs.len() - k,
{
    if k < vs.len() {
        assert(vs.subrange(0, k + 1).drop_last() =~= vs.subrange(0, k));
        lemma_concerns_error_persists(vs, k + 1);
    } else {
        assert(vs.subrange(0, k) =~= vs);
    }
}

/// A checked `ac add` before the spec is looked up.
#[derive(Debug)]
pub struct AcAddRequest {
    pub id: String,
    pub spec_id: String,
    pub title: String,
    pub intent: String,
    pub review_mode: ReviewMode,
    pub risk_level: RiskLevel,
    pub concerns: Vec<ConcernKind>,
    pub slug: Option<String>,
}

/// `ac add` flags: `(id, spec id, title, intent, review mode, risk level, concerns, slug)`.
pub open spec fn ac_add_spec(args: Seq<Seq<char>>, fallback_id: Seq<char>) -> Result<(Seq<char>, Seq<char>, Seq<char>, Seq<char>, ReviewMode, RiskLevel, Seq<ConcernKind>, Option<Seq<char>>), Seq<char>> {
    match parse_spec(args) {
        Err(m) => Err(m),
        Ok((f, _)) => match single_of(f, "spec-id"@) {
            Err(m) => Err(m),
            Ok(None) => Err("--"@ + "spec-id"@ + " is required"@),
            Ok(Some(spec_id)) => match single_of(f, "title"@) {
                Err(m) => Err(m),
                Ok(None) => Err("--"@ + "title"@ + " is required"@),
                Ok(Some(title)) => match single_of(f, "intent"@) {
                    Err(m) => Err(m),
                    Ok(it) => match single_of(f, "review-mode"@) {
                        Err(m) => Err(m),
                        Ok(rm) => match single_of(f, "risk-level"@) {
                            Err(m) => Err(m),
                            Ok(rl) => match single_of(f, "id"@) {
                                Err(m) => Err(m),
                                Ok(i) => match single_of(f, "slug"@) {
                                    Err(m) => Err(m),
                                    Ok(slug) => {
                                        let review_str = or_default(rm, "manual"@);
                                        let risk_str = or_default(rl, "medium"@);
                                        match ReviewMode::from_db_label(review_str) {
                                            None => Err("unknown --review-mode "@ + debug_quoted(review_str) + " (manual|automated|hybrid)"@),
                                            Some(mode) => match RiskLevel::from_db_label(risk_str) {
                                                None => Err("unknown --risk-level "@ + debug_quoted(risk_str) + " (low|medium|high|critical)"@),
                                                Some(risk) => match concerns_spec(flag_values(f, "concern"@)) {
                                                    Err(m) => Err(m),
                                                    Ok(ks) => Ok((or_default(i, fallback_id), spec_id, title, or_default(it, ""@), mode, risk, ks, slug)),
                                                },
                                            },
                                        }
                                    },
                                },
                            },
                        },
                    },
                },
            },
        },
    }
}

fn unknown_text(prefix: &str, value: &str, rest: &str) -> (r: String)
    ensures
        r@ == prefix@ + debug_quoted(value@) + rest@,
{
    let mut v: Vec<char> = Vec::new();
    append_str(&mut v, prefix);
    append_str(&mut v, debug_quote(value).as_str());
    append_str(&mut v, rest);
    string_from_chars(v.as_slice())
}

/// Checks the `ac add` flags; `fallback_id` when no `--id` is given.
pub fn ac_add_parse(args: &[String], fallback_id: &str) -> (r: Result<AcAddRequest, String>)
    ensures
        match ac_add_spec(strings_view(args@), fallback_id@) {
            Err(m) => r matches Err(e) && e@ == m,
            Ok((id, spec_id, title, intent, mode, risk, ks, slug)) => r matches Ok(q) && q.id@ == id
                && q.spec_id@ == spec_id && q.title@ == title && q.intent@ == intent && q.review_mode
                == mode && q.risk_level == risk && q.concerns@ == ks && match q.slug {
                Some(s) => slug == Some(s@),
                None => slug is None,
            },
        },
{
    let p = match parse_args(args) {
        Ok(p) => p,
        Err(e) => {
            return Err(e);
        },
    };
    let spec_id = match required_flag(&p, "spec-id") {
        Ok(v) => v,
        Err(e) => {
            return Err(e);
        },
    };
    let title = match required_flag(&p, "title") {
        Ok(v) => v,
        Err(e) => {
            return Err(e);
        },
    };
    proof {
        reveal_strlit("");
    }
    let intent = match flag_or(&p, "intent", "") {
        Ok(v) => v,
        Err(e) => {
            return Err(e);
        },
    };
    let review_str = match flag_or(&p, "review-mode", "manual") {
        Ok(v) => v,
        Err(e) => {
            return Err(e);
        },
    };
    let risk_str = match flag_or(&p, "risk-level", "medium") {
        Ok(v) => v,
        Err(e) => {
            return Err(e);
        },
    };
    let id = match flag_or(&p, "id", fallback_id) {
        Ok(v) => v,
        Err(e) => {
            return Err(e);
        },
    };
    let slug = match p.single_flag("slug") {
        Ok(v) => match v {
            Some(s) => Some(owned(s)),
            None => None,
        },
        Err(e) => {
            return Err(e);
        },
    };
    let review_mode = match ReviewMode::from_db_str(review_str.as_str()) {
        Some(m) => m,
        None => {
            return Err(unknown_text("unknown --review-mode ", review_str.as_str(), " (manual|automated|hybrid)"));
        },
    };
    let risk_level = match RiskLevel::from_db_str(risk_str.as_str()) {
        Some(m) => m,
        None => {
            return Err(unknown_text("unknown --risk-level ", risk_str.as_str(), " (low|medium|high|critical)"));
        },
    };
    let concerns = match parse_concerns(&p) {
        Ok(c) => c,
        Err(e) => {
            return Err(e);
        },
    };
    Ok(AcAddRequest { id, spec_id, title, intent, review_mode, risk_level, concerns, slug })
}

/// The criterion to store once its spec exists, stamped `ts`: an explicit slug must not be
/// blank and is normalized like an id.
pub fn ac_add_build(req: AcAddRequest, ts: &str) -> (r: Result<AcceptanceCriterion, String>)
    ensures
        (match req.slug {
            Some(s) => trim_seq(s@).len() == 0,
            None => false,
        }) ==> (r matches Err(e) && e@ == "--slug must not be empty when provided"@),
        (match req.slug {
            Some(s) => trim_seq(s@).len() > 0,
            None => true,
        }) ==> (r matches Ok(a) && a.id@ == req.id@ && a.spec_id@ == req.spec_id@ && a.title@
            == req.title@ && a.slug@ == match req.slug {
            Some(s) => slug_of(trim_seq(s@)),
            None => slug_of(req.id@),
        } && a.intent@ == req.intent@ && a.review_mode == req.review_mode && a.risk_level
            == req.risk_level && a.concerns@ == req.concerns@ && a.created_at@ == ts@
            && a.updated_at@ == ts@),
{
    let mut ac = AcceptanceCriterion::new(req.id.as_str(), req.spec_id.as_str(), req.title.as_str());
    match &req.slug {
        Some(s) => {
            let t = string_from_chars(trim_chars(s.as_str()).as_slice());
            if t.unicode_len() == 0 {
                return Err(owned("--slug must not be empty when provided"));
            }
            ac.slug = slug_from_id(t.as_str());
        },
        None => {},
    }
    ac.intent = req.intent;
    ac.review_mode = req.review_mode;
    ac.risk_level = req.risk_level;
    ac.concerns = req.concerns;
    ac.created_at = owned(ts);
    ac.updated_at = owned(ts);
    Ok(ac)
}

fn line2(a: &str, b: &str) -> (r: String)
    ensures
        r@ == a@ + b@,
{
    let mut v: Vec<char> = Vec::new();
    append_str(&mut v, a);
    append_str(&mut v, b);
    string_from_chars(v.as_slice())
}

/// What `ac add` prints.
pub fn ac_added_lines(ac: &AcceptanceCriterion) -> (r: Vec<String>)
    ensures
        lines_view(r@) == seq!["ac_id: "@ + ac.id@, "spec_id: "@ + ac.spec_id@, "slug: "@ + ac.slug@],
{
    let mut out: Vec<String> = Vec::new();
    out.push(line2("ac_id: ", ac.id.as_str()));
    out.push(line2("spec_id: ", ac.spec_id.as_str()));
    out.push(line2("slug: ", ac.slug.as_str()));
    assert(lines_view(out@) =~= seq!["ac_id: "@ + ac.id@, "spec_id: "@ + ac.spec_id@, "slug: "@ + ac.slug@]);
    out
}

/// The spec whose criteria `ac list` shows: `--spec-id`, and no positionals.
pub open spec fn ac_list_spec(args: Seq<Seq<char>>) -> Result<Seq<char>, Seq<char>> {
    match parse_spec(args) {
        Err(m) => Err(m),
        Ok((f, pos)) => match single_of(f, "spec-id"@) {
            Err(m) => Err(m),
            Ok(None) => Err("--"@ + "spec-id"@ + " is required"@),
            Ok(Some(id)) => if pos.len() > 0 {
                Err("unexpected positional arguments to ac list: "@ + debug_quoted(joined(pos, " "@)))
            } else {
                Ok(id)
            },
        },
    }
}

/// Checks the `ac list` arguments and returns the spec id.
pub fn ac_list_spec_id(args: &[String]) -> (r: Result<String, String>)
    ensures
        match ac_list_spec(strings_view(args@)) {
            Ok(id) => r matches Ok(s) && s@ == id,
            Err(m) => r matches Err(e) && e@ == m,
        },
{
    let p = match parse_args(args) {
        Ok(p) => p,
        Err(e) => {
            return Err(e);
        },
    };
    let spec_id = match required_flag(&p, "spec-id") {
        Ok(v) => v,
        Err(e) => {
            return Err(e);
        },
    };
    if p.positionals.len() > 0 {
        let all = join_messages(p.positionals.as_slice(), " ");
        assert(p.positionals@.map_values(|s: String| s@) =~= strings_view(p.positionals@));
        return Err(line2("unexpected positional arguments to ac list: ", debug_quote(all.as_str()).as_str()));
    }
    Ok(spec_id)
}

/// Concern labels, in order.
pub open spec fn concern_labels(ks: Seq<ConcernKind>) -> Seq<Seq<char>> {
    ks.map_values(|k: ConcernKind| k.db_label())
}

fn concerns_text(ks: &Vec<ConcernKind>) -> (r: String)
    ensures
        r@ == joined(concern_labels(ks@), ","@),
{
    let mut labels: Vec<String> = Vec::new();
    let mut i: usize = 0;
    while i < ks.len()
        invariant
            i <= ks@.len(),
            labels@.map_values(|s: String| s@) == concern_labels(ks@.subrange(0, i as int)),
        decreases ks@.len() - i,
    {
        let ghost before = labels@;
        labels.push(owned(ks[i].as_db_str()));
        assert(labels@.map_values(|s: String| s@) =~= before.map_values(|s: String| s@).push(ks@[i as int].db_label()));
        assert(concern_labels(ks@.subrange(0, i + 1)) =~= concern_labels(ks@.subrange(0, i as int)).push(ks@[i as int].db_label()));
        i = i + 1;
    }
    assert(ks@.subrange(0, ks@.len() as int) =~= ks@);
    join_messages(labels.as_slice(), ",")
}

/// The row of `ac list`.
pub open spec fn ac_row_text(a: AcceptanceCriterion) -> Seq<char> {
    a.id@ + "\t"@ + a.spec_id@ + "\t"@ + a.slug@ + "\t"@ + tab_safe(a.title@) + "\t"@
        + a.review_mode.db_label() + "\t"@ + a.risk_level.db_label() + "\t"@ + joined(
        concern_labels(a.concerns@),
        ","@,
    )
}

/// `id\tspec_id\tslug\ttitle\treview_mode\trisk_level\tconcerns` for one criterion.
pub fn ac_list_line(a: &AcceptanceCriterion) -> (r: String)
    ensures
        r@ == ac_row_text(*a),
{
    let mut v: Vec<char> = Vec::new();
    append_str(&mut v, a.id.as_str());
    append_str(&mut v, "\t");
    append_str(&mut v, a.spec_id.as_str());
    append_str(&mut v, "\t");
    append_str(&mut v, a.slug.as_str());
    append_str(&mut v, "\t");
    append_str(&mut v, escape_tab_field(a.title.as_str()).as_str());
    append_str(&mut v, "\t");
    append_str(&mut v, a.review_mode.as_db_str());
    append_str(&mut v, "\t");
    append_str(&mut v, a.risk_level.as_db_str());
    append_str(&mut v, "\t");
    append_str(&mut v, concerns_text(&a.concerns).as_str());
    string_from_chars(v.as_slice())
}

/// What `ac show` prints.
pub open spec fn ac_show_text(a: AcceptanceCriterion) -> Seq<Seq<char>> {
    seq![
        "id: "@ + a.id@,
        "spec_id: "@ + a.spec_id@,
        "slug: "@ + a.slug@,
        "title: "@ + a.title@,
        "intent: "@ + a.intent@,
        "review_mode: "@ + a.review_mode.db_label(),
        "risk_level: "@ + a.risk_level.db_label(),
        "concerns: "@ + joined(concern_labels(a.concerns@), ","@),
        "created_at: "@ + a.created_at@,
        "updated_at: "@ + a.updated_at@,
    ]
}

/// The lines of `ac show`.
pub fn ac_show_lines(a: &AcceptanceCriterion) -> (r: Vec<String>)
    ensures
        lines_view(r@) == ac_show_text(*a),
{
    let mut out: Vec<String> = Vec::new();
    out.push(line2("id: ", a.id.as_str()));
    out.push(line2("spec_id: ", a.spec_id.as_str()));
    out.push(line2("slug: ", a.slug.as_str()));
    out.push(line2("title: ", a.title.as_str()));
    out.push(line2("intent: ", a.intent.as_str()));
    out.push(line2("review_mode: ", a.review_mode.as_db_str()));
    out.push(line2("risk_level: ", a.risk_level.as_db_str()));
    out.push(line2("concerns: ", concerns_text(&a.concerns).as_str()));
    out.push(line2("created_at: ", a.created_at.as_str()));
    out.push(line2("updated_at: ", a.updated_at.as_str()));
    assert(lines_view(out@) =~= ac_show_text(*a));
    out
}

} // verus!
