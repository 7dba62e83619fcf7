//! `verify-ac`: which criterion to verify, the report lines, and the evidence records the
//! run writes for each executed link.
use vstd::prelude::*;

use crate::ac_verify::{AcVerifyAcRunResult, AcVerifyLinkRunRecord, AcVerifyLinkStatus};
use crate::commands::cli_parse::{flag_values, parse_args, parse_spec, strings_view};
use crate::digest::{hex_lower, sha256_hex, sha256_of};
use crate::json_text::{entries, json_object, json_string_literal, object_text, JsonScalar};
use vstd::utf8::encode_utf8;
use crate::text::{
    append_decimal, append_decimal_u128, append_i32, append_str, decimal, int_text, is_ascii_alnum, owned,
    string_from_chars,
};

verus! {

/// The id named on the command line: a single positional, or `--<flag>` when the first
/// token is a flag.
pub open spec fn resolve_id_spec(
    args: Seq<Seq<char>>,
    flag: Seq<char>,
    usage_full: Seq<char>,
    usage_short: Seq<char>,
) -> Result<Seq<char>, Seq<char>> {
    if args.len() == 0 {
        Err(usage_full)
    } else if args[0].len() > 0 && args[0][0] == '-' {
        match parse_spec(args) {
            Err(m) => Err(m),
            Ok((f, _)) => {
                let vals = flag_values(f, flag);
                if vals.len() == 0 {
                    Err("--"@ + flag + " is required when using flags"@)
                } else if vals.len() == 1 {
                    Ok(vals[0])
                } else {
                    Err("--"@ + flag + " must appear at most once"@)
                }
            },
        }
    } else if args.len() != 1 {
        Err(usage_short)
    } else {
        Ok(args[0])
    }
}

/// Resolves the id: see `resolve_id_spec`.
pub fn resolve_id(args: &[String], flag: &str, usage_full: &str, usage_short: &str) -> (r: Result<String, String>)
    ensures
        match resolve_id_spec(strings_view(args@), flag@, usage_full@, usage_short@) {
            Ok(id) => r matches Ok(s) && s@ == id,
            Err(m) => r matches Err(e) && e@ == m,
        },
{
    if args.len() == 0 {
        return Err(owned(usage_full));
    }
    assert(strings_view(args@)[0] == args@[0]@);
    if args[0].unicode_len() > 0 && args[0].as_str().get_char(0) == '-' {
        let p = match parse_args(args) {
            Ok(p) => p,
            Err(e) => {
                return Err(e);
            },
        };
        return match p.single_flag(flag) {
            Err(e) => Err(e),
            Ok(Some(v)) => Ok(owned(v)),
            Ok(None) => {
                let mut m: Vec<char> = Vec::new();
                append_str(&mut m, "--");
                append_str(&mut m, flag);
                append_str(&mut m, " is required when using flags");
                Err(string_from_chars(m.as_slice()))
            },
        };
    }
    if args.len() != 1 {
        return Err(owned(usage_short));
    }
    Ok(args[0].clone())
}

/// The criterion to verify: `verify-ac <AC_ID>` or `verify-ac --ac-id <AC_ID>`.
pub fn resolve_ac_id(args: &[String]) -> (r: Result<String, String>)
    ensures
        match resolve_id_spec(
            strings_view(args@),
            "ac-id"@,
            "usage: coherence-core-db verify-ac <AC_ID>\n       coherence-core-db verify-ac --ac-id <AC_ID>"@,
            "usage: coherence-core-db verify-ac <AC_ID>"@,
        ) {
            Ok(id) => r matches Ok(s) && s@ == id,
            Err(m) => r matches Err(e) && e@ == m,
        },
{
    resolve_id(
        args,
        "ac-id",
        "usage: coherence-core-db verify-ac <AC_ID>\n       coherence-core-db verify-ac --ac-id <AC_ID>",
        "usage: coherence-core-db verify-ac <AC_ID>",
    )
}

/// Tabs and newlines turned into spaces.
pub open spec fn tab_safe(s: Seq<char>) -> Seq<char> {
    s.map_values(|c: char| if c == '\t' || c == '\n' { ' ' } else { c })
}

/// `s` with tabs and newlines as spaces, for one tab-separated field.
pub fn escape_tab_field(s: &str) -> (r: String)
    ensures
        r@ == tab_safe(s@),
{
    let n = s.unicode_len();
    let mut out: Vec<char> = Vec::new();
    let mut i: usize = 0;
    while i < n
        invariant
            n == s@.len(),
            i <= n,
            out@ == tab_safe(s@.subrange(0, i as int)),
        decreases n - i,
    {
        let c = s.get_char(i);
        out.push(if c == '\t' || c == '\n' { ' ' } else { c });
        assert(tab_safe(s@.subrange(0, i + 1)) =~= tab_safe(s@.subrange(0, i as int)).push(
            if c == '\t' || c == '\n' { ' ' } else { c },
        ));
        i = i + 1;
    }
    assert(s@.subrange(0, n as int) =~= s@);
    string_from_chars(out.as_slice())
}

/// `x` for empty text; otherwise every character but ASCII letters, digits, `-`, `_` and
/// `.` becomes `_`.
pub open spec fn safe_segment_spec(s: Seq<char>) -> Seq<char> {
    if s.len() == 0 {
        "x"@
    } else {
        s.map_values(|c: char| if is_ascii_alnum(c) || c == '-' || c == '_' || c == '.' { c } else { '_' })
    }
}

/// A file-name-safe form of an id.
pub fn safe_segment(s: &str) -> (r: String)
    ensures
        r@ == safe_segment_spec(s@),
{
    let n = s.unicode_len();
    if n == 0 {
        return owned("x");
    }
    let mut out: Vec<char> = Vec::new();
    let mut i: usize = 0;
    while i < n
        invariant
            n == s@.len(),
            i <= n,
            out@ == s@.subrange(0, i as int).map_values(
                |c: char| if is_ascii_alnum(c) || c == '-' || c == '_' || c == '.' { c } else { '_' },
            ),
        decreases n - i,
    {
        let c = s.get_char(i);
        let keep = ('a' <= c && c <= 'z') || ('A' <= c && c <= 'Z') || ('0' <= c && c <= '9')
            || c == '-' || c == '_' || c == '.';
        out.push(if keep { c } else { '_' });
        assert(s@.subrange(0, i + 1).map_values(
            |c: char| if is_ascii_alnum(c) || c == '-' || c == '_' || c == '.' { c } else { '_' },
        ) =~= s@.subrange(0, i as int).map_values(
            |c: char| if is_ascii_alnum(c) || c == '-' || c == '_' || c == '.' { c } else { '_' },
        ).push(if keep { c } else { '_' }));
        i = i + 1;
    }
    assert(s@.subrange(0, n as int) =~= s@);
    string_from_chars(out.as_slice())
}

/// The status field of a link line.
pub open spec fn link_status_text(st: AcVerifyLinkStatus) -> Seq<char> {
    match st {
        AcVerifyLinkStatus::Passed => "passed"@,
        AcVerifyLinkStatus::Failed { exit_code } => "failed exit_code="@ + int_text(exit_code as int),
        AcVerifyLinkStatus::Skipped { reason } => "skipped reason="@ + reason@,
    }
}

fn link_status_string(st: &AcVerifyLinkStatus) -> (r: String)
    ensures
        r@ == link_status_text(*st),
{
    let mut v: Vec<char> = Vec::new();
    match st {
        AcVerifyLinkStatus::Passed => append_str(&mut v, "passed"),
        AcVerifyLinkStatus::Failed { exit_code } => {
            append_str(&mut v, "failed exit_code=");
            append_i32(&mut v, *exit_code);
        },
        AcVerifyLinkStatus::Skipped { reason } => {
            append_str(&mut v, "skipped reason=");
            append_str(&mut v, reason.as_str());
        },
    }
    string_from_chars(v.as_slice())
}

/// `LINK` line of a report.
pub open spec fn link_line_text(row: AcVerifyLinkRunRecord) -> Seq<char> {
    "LINK\tac_id="@ + row.ac_id@ + "\tcode_location_id="@ + row.code_location_id@ + "\tcommand="@
        + tab_safe(row.command@) + "\tstatus="@ + tab_safe(link_status_text(row.status))
        + "\tsummary="@ + tab_safe(row.output_summary@)
}

/// The `LINK` line of one link run.
pub fn link_line(row: &AcVerifyLinkRunRecord) -> (r: String)
    ensures
        r@ == link_line_text(*row),
{
    let mut v: Vec<char> = Vec::new();
    append_str(&mut v, "LINK\tac_id=");
    append_str(&mut v, row.ac_id.as_str());
    append_str(&mut v, "\tcode_location_id=");
    append_str(&mut v, row.code_location_id.as_str());
    append_str(&mut v, "\tcommand=");
    append_str(&mut v, escape_tab_field(row.command.as_str()).as_str());
    append_str(&mut v, "\tstatus=");
    let st = link_status_string(&row.status);
    append_str(&mut v, escape_tab_field(st.as_str()).as_str());
    append_str(&mut v, "\tsummary=");
    append_str(&mut v, escape_tab_field(row.output_summary.as_str()).as_str());
    string_from_chars(v.as_slice())
}

/// Views of a list of strings.
pub open spec fn lines_view(v: Seq<String>) -> Seq<Seq<char>> {
    v.map_values(|s: String| s@)
}

/// `LINK` lines of the links, in order.
pub open spec fn link_lines(links: Seq<AcVerifyLinkRunRecord>) -> Seq<Seq<char>>
    decreases links.len(),
{
    if links.len() == 0 {
        Seq::empty()
    } else {
        link_lines(links.drop_last()).push(link_line_text(links.last()))
    }
}

/// Appends the `LINK` lines of `links`.
pub fn push_link_lines(out: &mut Vec<String>, links: &Vec<AcVerifyLinkRunRecord>)
    ensures
        lines_view(final(out)@) == lines_view(old(out)@) + link_lines(links@),
{
    let mut i: usize = 0;
    while i < links.len()
        invariant
            i <= links@.len(),
            lines_view(out@) == lines_view(old(out)@) + link_lines(links@.subrange(0, i as int)),
        decreases links@.len() - i,
    {
        let ghost before = out@;
        out.push(link_line(&links[i]));
        assert(links@.subrange(0, i + 1).drop_last() =~= links@.subrange(0, i as int));
        assert(lines_view(out@) =~= lines_view(before).push(link_line_text(links@[i as int])));
        i = i + 1;
    }
    assert(links@.subrange(0, links@.len() as int) =~= links@);
}

/// The report of one criterion: the overall line, a note when it has no links, its links.
pub open spec fn ac_report(r: AcVerifyAcRunResult) -> Seq<Seq<char>> {
    seq!["OVERALL\tac_id="@ + r.ac_id@ + "\tstatus="@ + r.overall().label()] + (if r.no_verification_links {
        seq!["SUMMARY\tno verified_by links for this AC"@]
    } else {
        Seq::empty()
    }) + link_lines(r.links@)
}

/// The lines `verify-ac` prints.
pub fn ac_report_lines(result: &AcVerifyAcRunResult) -> (r: Vec<String>)
    ensures
        lines_view(r@) == ac_report(*result),
{
    let mut out: Vec<String> = Vec::new();
    let mut v: Vec<char> = Vec::new();
    append_str(&mut v, "OVERALL\tac_id=");
    append_str(&mut v, result.ac_id.as_str());
    append_str(&mut v, "\tstatus=");
    append_str(&mut v, result.overall_status_label());
    out.push(string_from_chars(v.as_slice()));
    if result.no_verification_links {
        out.push(owned("SUMMARY\tno verified_by links for this AC"));
    }
    let ghost head = lines_view(out@);
    push_link_lines(&mut out, &result.links);
    assert(lines_view(out@) =~= ac_report(*result));
    out
}

/// One evidence record to write for an executed link.
#[derive(Debug)]
pub struct EvidenceItem {
    /// Position of the link in the result.
    pub link_index: usize,
    pub observation_id: String,
    /// `passed` or `failed`.
    pub status_label: String,
    pub exit_code: i32,
    /// Where the captured output goes under `artifacts/`, when there is any.
    pub stdout_rel_under_artifacts: Option<String>,
    /// `verified_by:<ac id>:<location id>`.
    pub object_id: String,
    /// The record's payload, compact JSON.
    pub payload_json: String,
    /// SHA-256 hex of the captured output when there is any, else of the payload.
    pub content_hash: String,
    /// The captured output's path under the run root (`artifacts/…`), when there is any.
    pub stdout_artifact_relpath: Option<String>,
}

/// The payload fields of an executed link: its command, status, exit code and output
/// summary, and, when output was captured, its length in bytes.
pub open spec fn payload_entries(row: AcVerifyLinkRunRecord, label: Seq<char>, code: i32) -> Seq<(Seq<char>, Seq<char>)> {
    let base = seq![
        ("command"@, json_string_literal(row.command@)),
        ("status"@, json_string_literal(label)),
        ("exit_code"@, int_text(code as int)),
        ("output_summary"@, json_string_literal(row.output_summary@)),
    ];
    if row.captured_output@.len() == 0 {
        base
    } else {
        base.push(("captured_byte_length"@, decimal(encode_utf8(row.captured_output@).len())))
    }
}

/// The observation id of link `idx` in a run with clock suffix `suffix`.
pub open spec fn observation_id_text(ac_id: Seq<char>, loc_id: Seq<char>, suffix: u128, idx: int) -> Seq<char> {
    "obs-vfy-"@ + safe_segment_spec(loc_id) + "-"@ + safe_segment_spec(ac_id) + "-"@ + decimal(suffix as nat)
        + "-"@ + decimal(idx as nat)
}

/// `it` is the evidence record of link `idx` of `r`.
pub open spec fn evidence_of(it: EvidenceItem, r: AcVerifyAcRunResult, idx: int, suffix: u128) -> bool {
    let row = r.links@[idx];
    let obs = observation_id_text(r.ac_id@, row.code_location_id@, suffix, idx);
    &&& it.link_index == idx
    &&& it.observation_id@ == obs
    &&& it.status_label@ == if row.status is Passed { "passed"@ } else { "failed"@ }
    &&& it.exit_code == match row.status {
        AcVerifyLinkStatus::Failed { exit_code } => exit_code,
        _ => 0i32,
    }
    &&& match it.stdout_rel_under_artifacts {
        Some(p) => row.captured_output@.len() > 0 && p@ == "verify-ac/"@ + obs + "/stdout.txt"@,
        None => row.captured_output@.len() == 0,
    }
    &&& it.object_id@ == "verified_by:"@ + r.ac_id@ + ":"@ + row.code_location_id@
    &&& it.payload_json@ == object_text(payload_entries(row, it.status_label@, it.exit_code))
    &&& it.content_hash@ == if row.captured_output@.len() == 0 {
        hex_lower(sha256_of(encode_utf8(it.payload_json@)))
    } else {
        hex_lower(sha256_of(encode_utf8(row.captured_output@)))
    }
    &&& match (it.stdout_artifact_relpath, it.stdout_rel_under_artifacts) {
        (Some(p), Some(q)) => p@ == "artifacts/"@ + q@,
        (None, None) => true,
        _ => false,
    }
}

/// Positions of the executed (not skipped) links, in order.
pub open spec fn executed_links(links: Seq<AcVerifyLinkRunRecord>) -> Seq<int>
    decreases links.len(),
{
    if links.len() == 0 {
        Seq::empty()
    } else if links.last().status is Skipped {
        executed_links(links.drop_last())
    } else {
        executed_links(links.drop_last()).push(links.len() - 1)
    }
}

/// The evidence records of a verification run: one per executed link, in link order.
pub fn evidence_plan(result: &AcVerifyAcRunResult, suffix: u128) -> (r: Vec<EvidenceItem>)
    ensures
        r@.len() == executed_links(result.links@).len(),
        forall|k: int| 0 <= k < r@.len() ==> evidence_of(#[trigger] r@[k], *result, executed_links(result.links@)[k], suffix),
{
    let ghost links = result.links@;
    let mut out: Vec<EvidenceItem> = Vec::new();
    let mut i: usize = 0;
    while i < result.links.len()
        invariant
            links == result.links@,
            i <= links.len(),
            out@.len() == executed_links(links.subrange(0, i as int)).len(),
            forall|k: int| 0 <= k < out@.len() ==> evidence_of(#[trigger] out@[k], *result, executed_links(links.subrange(0, i as int))[k], suffix),
        decreases links.len() - i,
    {
        let row = &result.links[i];
        let ghost pre = links.subrange(0, i as int);
        assert(links.subrange(0, i + 1).drop_last() =~= pre);
        assert(links.subrange(0, i + 1).last() == *row);
        let skipped = match &row.status {
            AcVerifyLinkStatus::Skipped { .. } => true,
            _ => false,
        };
        if !skipped {
            let mut obs: Vec<char> = Vec::new();
            append_str(&mut obs, "obs-vfy-");
            append_str(&mut obs, safe_segment(row.code_location_id.as_str()).as_str());
            append_str(&mut obs, "-");
            append_str(&mut obs, safe_segment(result.ac_id.as_str()).as_str());
            append_str(&mut obs, "-");
            append_decimal_u128(&mut obs, suffix);
            append_str(&mut obs, "-");
            append_decimal(&mut obs, i);
            let obs_id = string_from_chars(obs.as_slice());
            let (label, code) = match &row.status {
                AcVerifyLinkStatus::Failed { exit_code } => ("failed", *exit_code),
                _ => ("passed", 0i32),
            };
            let rel = if row.captured_output.unicode_len() > 0 {
                let mut p: Vec<char> = Vec::new();
                append_str(&mut p, "verify-ac/");
                append_str(&mut p, obs_id.as_str());
                append_str(&mut p, "/stdout.txt");
                Some(string_from_chars(p.as_slice()))
            } else {
                None
            };
            let mut oid: Vec<char> = Vec::new();
            append_str(&mut oid, "verified_by:");
            append_str(&mut oid, result.ac_id.as_str());
            append_str(&mut oid, ":");
            append_str(&mut oid, row.code_location_id.as_str());
            let captured = row.captured_output.unicode_len() > 0;
            let mut pf: Vec<(String, JsonScalar)> = Vec::new();
            pf.push((owned("command"), JsonScalar::Text(row.command.clone())));
            pf.push((owned("status"), JsonScalar::Text(owned(label))));
            pf.push((owned("exit_code"), JsonScalar::Int(code as i64)));
            pf.push((owned("output_summary"), JsonScalar::Text(row.output_summary.clone())));
            if captured {
                let n = row.captured_output.as_str().as_bytes().len();
                assert(n == encode_utf8(row.captured_output@).len());
                pf.push((owned("captured_byte_length"), JsonScalar::UInt(n as u64)));
                assert(entries(pf@)[4] == ("captured_byte_length"@, decimal(encode_utf8(row.captured_output@).len())));
            }
            proof {
                assert(entries(pf@)[0] == ("command"@, json_string_literal(row.command@)));
                assert(entries(pf@)[1] == ("status"@, json_string_literal(label@)));
                assert(entries(pf@)[2] == ("exit_code"@, int_text(code as int)));
                assert(entries(pf@)[3] == ("output_summary"@, json_string_literal(row.output_summary@)));
                reveal_strlit("command");
                reveal_strlit("status");
                reveal_strlit("exit_code");
                reveal_strlit("output_summary");
                reveal_strlit("captured_byte_length");
                assert(entries(pf@) =~= payload_entries(*row, label@, code));
            }
            let payload_json = json_object(&pf);
            let content_hash = if captured {
                sha256_hex(row.captured_output.as_str().as_bytes())
            } else {
                sha256_hex(payload_json.as_str().as_bytes())
            };
            let artifact_rel = match &rel {
                Some(r) => {
                    let mut a: Vec<char> = Vec::new();
                    append_str(&mut a, "artifacts/");
                    append_str(&mut a, r.as_str());
                    Some(string_from_chars(a.as_slice()))
                },
                None => None,
            };
            let ghost before = out@;
            let item = EvidenceItem {
                link_index: i,
                observation_id: obs_id,
                status_label: owned(label),
                exit_code: code,
                stdout_rel_under_artifacts: rel,
                object_id: string_from_chars(oid.as_slice()),
                payload_json,
                content_hash,
                stdout_artifact_relpath: artifact_rel,
            };
            out.push(item);
            proof {
                let ex = executed_links(links.subrange(0, i + 1));
                assert(ex == executed_links(pre).push(i as int));
                assert forall|k: int| 0 <= k < out@.len() implies evidence_of(#[trigger] out@[k], *result, ex[k], suffix) by {
                    if k < before.len() {
                        assert(out@[k] == before[k]);
                    }
                }
            }
        } else {
            assert(executed_links(links.subrange(0, i + 1)) == executed_links(pre));
        }
        i = i + 1;
    }
    assert(links.subrange(0, links.len() as int) =~= links);
    out
}

} // verus!
