//! `verify-spec`: which spec to verify and the report lines.
use vstd::prelude::*;

use crate::ac_verify::{AcVerifyAcRunResult, VerifySpecRunResult};
use crate::commands::cli_parse::strings_view;
use crate::commands::verify_ac_cmd::{link_lines, lines_view, push_link_lines, resolve_id, resolve_id_spec};
use crate::text::{append_decimal, append_str, decimal, string_from_chars};

verus! {

/// The spec to verify: `verify-spec <SPEC_ID>` or `verify-spec --spec-id <SPEC_ID>`.
pub fn resolve_spec_id(args: &[String]) -> (r: Result<String, String>)
    ensures
        match resolve_id_spec(
            strings_view(args@),
            "spec-id"@,
            "usage: coherence-core-db verify-spec <SPEC_ID>\n       coherence-core-db verify-spec --spec-id <SPEC_ID>"@,
            "usage: coherence-core-db verify-spec <SPEC_ID>"@,
        ) {
            Ok(id) => r matches Ok(s) && s@ == id,
            Err(m) => r matches Err(e) && e@ == m,
        },
{
    resolve_id(
        args,
        "spec-id",
        "usage: coherence-core-db verify-spec <SPEC_ID>\n       coherence-core-db verify-spec --spec-id <SPEC_ID>",
        "usage: coherence-core-db verify-spec <SPEC_ID>",
    )
}

/// The lines of one criterion in a spec report.
pub open spec fn ac_block(spec_id: Seq<char>, r: AcVerifyAcRunResult) -> Seq<Seq<char>> {
    seq!["AC\tspec_id="@ + spec_id + "\tac_id="@ + r.ac_id@ + "\tstatus="@ + r.overall().label()] + (
    if r.no_verification_links {
        seq!["SUMMARY\tac_id="@ + r.ac_id@ + "\tno verified_by links for this AC"@]
    } else {
        Seq::empty()
    }) + link_lines(r.links@)
}

/// The lines of the criteria in a spec report, in order.
pub open spec fn ac_blocks(spec_id: Seq<char>, rs: Seq<AcVerifyAcRunResult>) -> Seq<Seq<char>>
    decreases rs.len(),
{
    if rs.len() == 0 {
        Seq::empty()
    } else {
        ac_blocks(spec_id, rs.drop_last()) + ac_block(spec_id, rs.last())
    }
}

/// The report of a spec: its counts, then each criterion with its links.
pub open spec fn spec_report(r: VerifySpecRunResult) -> Seq<Seq<char>> {
    seq![
        "SPEC\tspec_id="@ + r.spec_id@ + "\tspecs=1\tacceptance_criteria="@ + decimal(
            r.acceptance_criteria as nat,
        ) + "\tpassed="@ + decimal(r.passed as nat) + "\tfailed="@ + decimal(r.failed as nat)
            + "\tskipped="@ + decimal(r.skipped as nat) + "\tno_verification="@ + decimal(
            r.no_verification as nat,
        ),
    ] + ac_blocks(r.spec_id@, r.ac_results@)
}

/// The lines `verify-spec` prints.
pub fn spec_report_lines(report: &VerifySpecRunResult) -> (r: Vec<String>)
    ensures
        lines_view(r@) == spec_report(*report),
{
    let mut out: Vec<String> = Vec::new();
    let mut v: Vec<char> = Vec::new();
    append_str(&mut v, "SPEC\tspec_id=");
    append_str(&mut v, report.spec_id.as_str());
    append_str(&mut v, "\tspecs=1\tacceptance_criteria=");
    append_decimal(&mut v, report.acceptance_criteria);
    append_str(&mut v, "\tpassed=");
    append_decimal(&mut v, report.passed);
    append_str(&mut v, "\tfailed=");
    append_decimal(&mut v, report.failed);
    append_str(&mut v, "\tskipped=");
    append_decimal(&mut v, report.skipped);
    append_str(&mut v, "\tno_verification=");
    append_decimal(&mut v, report.no_verification);
    out.push(string_from_chars(v.as_slice()));
    assert(lines_view(out@) =~= seq![spec_report(*report)[0]]);
    let ghost rs = report.ac_results@;
    let mut i: usize = 0;
    assert(rs.subrange(0, 0) =~= Seq::<AcVerifyAcRunResult>::empty());
    while i < report.ac_results.len()
        invariant
            rs == report.ac_results@,
            i <= rs.len(),
            lines_view(out@) == seq![spec_report(*report)[0]] + ac_blocks(report.spec_id@, rs.subrange(0, i as int)),
        decreases rs.len() - i,
    {
        let res = &report.ac_results[i];
        let ghost start = lines_view(out@);
        let mut a: Vec<char> = Vec::new();
        append_str(&mut a, "AC\tspec_id=");
        append_str(&mut a, report.spec_id.as_str());
        append_str(&mut a, "\tac_id=");
        append_str(&mut a, res.ac_id.as_str());
        append_str(&mut a, "\tstatus=");
        append_str(&mut a, res.overall_status_label());
        out.push(string_from_chars(a.as_slice()));
        if res.no_verification_links {
            let mut s: Vec<char> = Vec::new();
            append_str(&mut s, "SUMMARY\tac_id=");
            append_str(&mut s, res.ac_id.as_str());
            append_str(&mut s, "\tno verified_by links for this AC");
            out.push(string_from_chars(s.as_slice()));
        }
        push_link_lines(&mut out, &res.links);
        assert(rs.subrange(0, i + 1).drop_last() =~= rs.subrange(0, i as int));
        assert(lines_view(out@) =~= start + ac_block(report.spec_id@, rs[i as int]));
        i = i + 1;
    }
    assert(rs.subrange(0, rs.len() as int) =~= rs);
    assert(lines_view(out@) =~= spec_report(*report));
    out
}

} // verus!
