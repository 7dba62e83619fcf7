//! `evidence-sample [--workspace <dir>] [--run-id <id>]`: the default run id and the report
//! printed once the sample run is written and its artifact read back.
use vstd::prelude::*;

use crate::digest::{hex_lower, sha256_hex, sha256_of};
use crate::evidence_store::{
    CanonicalEvidencePointer, CANONICAL_POINTER_STUB_FILE, RUN_MANIFEST_FILE, RunLayout, metadata_dir_spec,
    resolve_artifact_path, run_root_spec,
};
use crate::text::{append_decimal, append_str, concat2, decimal, join_path_spec, str_eq, string_from_chars};

verus! {

/// `run-<uuid>`: the run id when none is given, from a fresh UUID's text.
pub fn default_run_id(uuid_text: &str) -> (r: String)
    ensures
        r@ == "run-"@ + uuid_text@,
{
    concat2("run-", uuid_text)
}

/// The report of a sample run written under `workspace` as `run_id`, whose artifact read back
/// as `artifact`, line by line.
pub open spec fn sample_report_spec(
    workspace: Seq<char>,
    run_id: Seq<char>,
    p: CanonicalEvidencePointer,
    artifact: Seq<u8>,
) -> Seq<Seq<char>> {
    let run_root = run_root_spec(workspace, run_id);
    let metadata = join_path_spec(run_root, "metadata"@);
    seq![
        "evidence-sample: success"@,
        "run_id: "@ + p.run_id@,
        "workspace_root: "@ + workspace,
        "run_root: "@ + run_root,
        "manifest: "@ + join_path_spec(metadata, RUN_MANIFEST_FILE@),
        "canonical_pointer_stub (future DB row shape, metadata only): "@ + join_path_spec(
            metadata,
            CANONICAL_POINTER_STUB_FILE@,
        ),
        "retrieval: join workspace + evidence_root_relpath + artifact_relpath_from_run_root"@,
        "  evidence_root_relpath: "@ + p.evidence_root_relpath@,
        "  artifact_relpath_from_run_root: "@ + p.artifact_relpath_from_run_root@,
        "  resolved_artifact_path: "@ + join_path_spec(
            join_path_spec(workspace, p.evidence_root_relpath@),
            p.artifact_relpath_from_run_root@,
        ),
        "  artifact_bytes: "@ + decimal(artifact.len()),
        "  sha256_hex (matches pointer): "@ + if p.payload_sha256_hex@ == hex_lower(sha256_of(artifact)) {
            "true"@
        } else {
            "false"@
        },
        "large_payload_stays_outside_canonical_db: confirmed (Dolt not used; stub JSON size << artifact)"@,
        "note: no evidence pointer SQL migration in M1 yet — see evidence_store module docs (ADR-0005 boundary)."@,
    ]
}

fn line2(a: &str, b: &str) -> (r: String)
    ensures
        r@ == a@ + b@,
{
    concat2(a, b)
}

fn push_text(out: &mut Vec<String>, s: String)
    ensures
        final(out)@.map_values(|x: String| x@) == old(out)@.map_values(|x: String| x@).push(s@),
{
    let ghost before = out@;
    out.push(s);
    assert(out@.map_values(|x: String| x@) =~= before.map_values(|x: String| x@).push(s@));
}

/// The report of a sample run written under `workspace` as `run_id`, whose artifact read back
/// as `artifact`: where each piece lies, the artifact's size, and whether its hash matches the
/// pointer.
pub fn sample_report(workspace: &str, run_id: &str, pointer: &CanonicalEvidencePointer, artifact: &[u8]) -> (r: Vec<
    String,
>)
    ensures
        r@.map_values(|x: String| x@) == sample_report_spec(workspace@, run_id@, *pointer, artifact@),
{
    let layout = RunLayout::new(workspace, run_id);
    let mut out: Vec<String> = Vec::new();
    push_text(&mut out, line2("evidence-sample: success", ""));
    push_text(&mut out, line2("run_id: ", pointer.run_id.as_str()));
    push_text(&mut out, line2("workspace_root: ", workspace));
    let root = layout.run_root();
    push_text(&mut out, line2("run_root: ", root.as_str()));
    let manifest = layout.run_manifest_path();
    push_text(&mut out, line2("manifest: ", manifest.as_str()));
    let stub = layout.canonical_pointer_stub_path();
    push_text(&mut out, line2("canonical_pointer_stub (future DB row shape, metadata only): ", stub.as_str()));
    push_text(&mut out, line2("retrieval: join workspace + evidence_root_relpath + artifact_relpath_from_run_root", ""));
    push_text(&mut out, line2("  evidence_root_relpath: ", pointer.evidence_root_relpath.as_str()));
    push_text(&mut out, line2("  artifact_relpath_from_run_root: ", pointer.artifact_relpath_from_run_root.as_str()));
    let resolved = resolve_artifact_path(workspace, pointer);
    push_text(&mut out, line2("  resolved_artifact_path: ", resolved.as_str()));
    let mut m: Vec<char> = Vec::new();
    append_str(&mut m, "  artifact_bytes: ");
    append_decimal(&mut m, artifact.len());
    push_text(&mut out, string_from_chars(m.as_slice()));
    let h = sha256_hex(artifact);
    let matches = str_eq(pointer.payload_sha256_hex.as_str(), h.as_str());
    push_text(&mut out, line2("  sha256_hex (matches pointer): ", if matches { "true" } else { "false" }));
    push_text(
        &mut out,
        line2("large_payload_stays_outside_canonical_db: confirmed (Dolt not used; stub JSON size << artifact)", ""),
    );
    push_text(
        &mut out,
        line2("note: no evidence pointer SQL migration in M1 yet — see evidence_store module docs (ADR-0005 boundary).", ""),
    );
    proof {
        reveal_strlit("");
        reveal_strlit("metadata");
        assert(layout.workspace_root@ == workspace@ && layout.run_id@ == run_id@);
        assert(metadata_dir_spec(layout) == join_path_spec(run_root_spec(workspace@, run_id@), "metadata"@));
        assert(out@.map_values(|x: String| x@) =~= sample_report_spec(workspace@, run_id@, *pointer, artifact@));
    }
    out
}

} // verus!
