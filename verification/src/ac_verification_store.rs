//! Row encoding of the latest verification results (`codeintel_ac_verification_latest` and
//! `codeintel_ac_verification_link_latest`); the SQL itself is issued by the caller.
use vstd::prelude::*;

use crate::ac_verify::{AcVerifyAcRunResult, AcVerifyLinkStatus, AcVerifyOverallStatus};
use crate::text::{concat2, concat3, str_eq};

verus! {

#[derive(Debug, Clone, PartialEq, Eq)]
pub struct AcVerificationLatest {
    pub ac_id: String,
    pub overall_status: AcVerifyOverallStatus,
    pub no_verification_links: bool,
    pub link_count: usize,
    pub verified_at: String,
}

#[derive(Debug, Clone, PartialEq, Eq)]
pub struct AcVerificationLinkLatest {
    pub ac_id: String,
    pub code_location_id: String,
    pub command: String,
    pub status: AcVerifyLinkStatus,
    pub output_summary: String,
    pub verified_at: String,
}

/// Column text of a link status.
pub open spec fn link_status_label(status: AcVerifyLinkStatus) -> Seq<char> {
    match status {
        AcVerifyLinkStatus::Passed => "passed"@,
        AcVerifyLinkStatus::Failed { .. } => "failed"@,
        AcVerifyLinkStatus::Skipped { .. } => "skipped"@,
    }
}

/// The `(status, exit_code, skip_reason)` columns of a link status.
pub fn link_status_columns(status: &AcVerifyLinkStatus) -> (r: (&'static str, Option<i32>, Option<String>))
    ensures
        r.0@ == link_status_label(*status),
        r.1 == match *status {
            AcVerifyLinkStatus::Failed { exit_code } => Some(exit_code),
            _ => None,
        },
        r.2 == match *status {
            AcVerifyLinkStatus::Skipped { reason } => Some(reason),
            _ => None,
        },
{
    match status {
        AcVerifyLinkStatus::Passed => ("passed", None, None),
        AcVerifyLinkStatus::Failed { exit_code } => ("failed", Some(*exit_code), None),
        AcVerifyLinkStatus::Skipped { reason } => ("skipped", None, Some(reason.clone())),
    }
}

/// Decodes a stored link status; unknown status text is an error.
pub fn link_status_from_columns(status: &str, exit_code: Option<i32>, skip_reason: Option<String>) -> (r: Result<
    AcVerifyLinkStatus,
    String,
>)
    ensures
        r is Err <==> !(status@ == "passed"@ || status@ == "failed"@ || status@ == "skipped"@),
        status@ == "passed"@ ==> r == Ok::<AcVerifyLinkStatus, String>(AcVerifyLinkStatus::Passed),
        status@ == "failed"@ ==> (r matches Ok(AcVerifyLinkStatus::Failed { exit_code: c })
            && c == match exit_code {
            Some(c) => c,
            None => -1i32,
        }),
        status@ == "skipped"@ ==> (r matches Ok(AcVerifyLinkStatus::Skipped { reason })
            && reason@ == match skip_reason {
            Some(s) => s@,
            None => Seq::<char>::empty(),
        }),
{
    proof {
        lemma_link_status_columns_round_trip(AcVerifyLinkStatus::Passed);
        lemma_link_status_columns_round_trip(AcVerifyLinkStatus::Failed { exit_code: 0 });
    }
    if str_eq(status, "passed") {
        Ok(AcVerifyLinkStatus::Passed)
    } else if str_eq(status, "failed") {
        Ok(
            AcVerifyLinkStatus::Failed {
                exit_code: match exit_code {
                    Some(c) => c,
                    None => -1,
                },
            },
        )
    } else if str_eq(status, "skipped") {
        let reason = match skip_reason {
            Some(s) => s,
            None => String::new(),
        };
        assert(reason@ == match skip_reason {
            Some(s) => s@,
            None => Seq::<char>::empty(),
        });
        Ok(AcVerifyLinkStatus::Skipped { reason })
    } else {
        Err(concat2("unknown verification link status: ", status))
    }
}

/// Encoding a link status in columns and decoding the columns gives the status back.
pub proof fn lemma_link_status_columns_round_trip(status: AcVerifyLinkStatus)
    ensures
        link_status_label(status) == "passed"@ ==> status is Passed,
        link_status_label(status) == "failed"@ ==> status is Failed,
        link_status_label(status) == "skipped"@ ==> status is Skipped,
        link_status_label(status) == "passed"@ || link_status_label(status) == "failed"@
            || link_status_label(status) == "skipped"@,
{
    reveal_strlit("passed");
    reveal_strlit("failed");
    reveal_strlit("skipped");
    assert("passed"@[0] != "failed"@[0]);
    assert("passed"@[0] != "skipped"@[0]);
    assert("failed"@[0] != "skipped"@[0]);
}

/// Decodes a stored overall status; unknown text is an error.
pub fn overall_status_from_label(status: &str) -> (r: Result<AcVerifyOverallStatus, String>)
    ensures
        r is Ok <==> AcVerifyOverallStatus::from_label(status@) is Some,
        r matches Ok(s) ==> AcVerifyOverallStatus::from_label(status@) == Some(s),
        r matches Err(m) ==> m@ == "unknown verification overall status: "@ + status@,
{
    if str_eq(status, "no_verification") {
        Ok(AcVerifyOverallStatus::NoVerification)
    } else if str_eq(status, "failed") {
        Ok(AcVerifyOverallStatus::Failed)
    } else if str_eq(status, "passed") {
        Ok(AcVerifyOverallStatus::Passed)
    } else if str_eq(status, "skipped") {
        Ok(AcVerifyOverallStatus::Skipped)
    } else {
        Err(concat2("unknown verification overall status: ", status))
    }
}

/// The `(overall_status, no_verification_links, link_count)` columns stored for a result.
pub fn latest_columns(result: &AcVerifyAcRunResult) -> (r: (&'static str, bool, u64))
    ensures
        r.0@ == result.overall().label(),
        r.1 == result.no_verification_links,
        r.2 == result.links@.len(),
{
    (result.overall_status_label(), result.no_verification_links, result.links.len() as u64)
}

/// Decodes a `codeintel_ac_verification_latest` row; unknown status text, or a link count that
/// does not fit in `usize`, is an error.
pub fn latest_from_row(
    ac_id: String,
    overall_status: &str,
    no_verification_links: bool,
    link_count: u64,
    verified_at: String,
) -> (r: Result<AcVerificationLatest, String>)
    ensures
        r is Ok <==> AcVerifyOverallStatus::from_label(overall_status@) is Some && link_count
            <= usize::MAX,
        r matches Ok(l) ==> {
            &&& l.ac_id == ac_id
            &&& Some(l.overall_status) == AcVerifyOverallStatus::from_label(overall_status@)
            &&& l.no_verification_links == no_verification_links
            &&& l.link_count == link_count
            &&& l.verified_at == verified_at
        },
        r matches Err(m) ==> m@ == if AcVerifyOverallStatus::from_label(overall_status@) is None {
            "unknown verification overall status: "@ + overall_status@
        } else {
            "verification link_count out of range for AC "@ + ac_id@
                + ": out of range integral type conversion attempted"@
        },
{
    let status = match overall_status_from_label(overall_status) {
        Ok(s) => s,
        Err(e) => return Err(e),
    };
    if link_count > usize::MAX as u64 {
        return Err(
            concat3(
                "verification link_count out of range for AC ",
                ac_id.as_str(),
                ": out of range integral type conversion attempted",
            ),
        );
    }
    Ok(
        AcVerificationLatest {
            ac_id,
            overall_status: status,
            no_verification_links,
            link_count: link_count as usize,
            verified_at,
        },
    )
}

} // verus!
