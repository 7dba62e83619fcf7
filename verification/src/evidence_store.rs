//! Layout of the per-run evidence store under `.coherence/runs/<run-id>/`: heavy bytes under
//! `artifacts/`, JSON metadata under `metadata/`. The canonical catalog only ever holds
//! pointer-shaped metadata ([`CanonicalEvidencePointer`]), never the payload itself.
//!
//! Paths are text; the caller does the file-system work with the paths and records built here.
use vstd::prelude::*;

use crate::paths::{components, lemma_components_join_name, path_components, plain_name, strip_components,
    strip_prefix_components, texts};
use crate::text::{append_str, join_messages, join_path, join_path_spec, joined, owned, string_from_chars};
use crate::text::{append_decimal, decimal};
use crate::digest::{hex_lower, sha256_hex, sha256_of};
use crate::json_text::{entries, json_object, json_string_literal, object_text, JsonScalar};
use vstd::utf8::encode_utf8;

verus! {

/// `.coherence` at the workspace root.
pub const COHERENCE_DIR: &'static str = ".coherence";

/// Directory under `.coherence` holding per-run evidence roots.
pub const RUNS_ROOT_SEGMENT: &'static str = "runs";

/// Subdirectory of a run root for artifact files (large payloads).
pub const ARTIFACTS_SEGMENT: &'static str = "artifacts";

/// JSON metadata (manifest, envelopes, canonical-pointer stub).
pub const METADATA_SEGMENT: &'static str = "metadata";

/// Per-envelope JSON files under the observations directory.
pub const OBSERVATIONS_SEGMENT: &'static str = "observations";

/// The run manifest's file name.
pub const RUN_MANIFEST_FILE: &'static str = "run.json";

/// File holding the pointer record that the canonical database will hold later.
pub const CANONICAL_POINTER_STUB_FILE: &'static str = "canonical-pointer.json";

/// Version written into new run manifests.
pub const RUN_MANIFEST_SCHEMA_VERSION: u32 = 1;

/// Where the sample run puts its large artifact, under `artifacts/`.
pub const SAMPLE_ARTIFACT_UNDER_ARTIFACTS: &'static str = "blobs/heavy-payload.bin";

/// The same artifact relative to the run root.
pub const SAMPLE_ARTIFACT_FROM_RUN_ROOT: &'static str = "artifacts/blobs/heavy-payload.bin";

/// Observation id of the sample run's envelope.
pub const SAMPLE_OBSERVATION_ID: &'static str = "obs-sample-001";

/// Summary carried by the sample run's payload and pointer.
pub const SAMPLE_PAYLOAD_SUMMARY: &'static str = "Large JSON blob redacted/truncated; full body in artifact";

/// Size in bytes of the sample run's artifact.
pub const SAMPLE_ARTIFACT_LEN: usize = 1048576;

/// The byte the sample artifact is filled with.
pub const SAMPLE_ARTIFACT_BYTE: u8 = 0xAB;

/// Layout paths for `.coherence/runs/<run-id>/` under a workspace root.
#[derive(Debug)]
pub struct RunLayout {
    pub workspace_root: String,
    pub run_id: String,
}

/// `.coherence/runs/<run-id>` under `workspace_root`.
pub open spec fn run_root_spec(workspace_root: Seq<char>, run_id: Seq<char>) -> Seq<char> {
    join_path_spec(join_path_spec(join_path_spec(workspace_root, COHERENCE_DIR@), RUNS_ROOT_SEGMENT@), run_id)
}

/// `metadata/` under the run root.
pub open spec fn metadata_dir_spec(l: RunLayout) -> Seq<char> {
    join_path_spec(run_root_spec(l.workspace_root@, l.run_id@), METADATA_SEGMENT@)
}

impl RunLayout {
    pub fn new(workspace_root: &str, run_id: &str) -> (r: Self)
        ensures
            r.workspace_root@ == workspace_root@,
            r.run_id@ == run_id@,
    {
        RunLayout { workspace_root: owned(workspace_root), run_id: owned(run_id) }
    }

    /// `.coherence/runs/<run-id>/`
    pub fn run_root(&self) -> (r: String)
        ensures
            r@ == run_root_spec(self.workspace_root@, self.run_id@),
    {
        let a = join_path(self.workspace_root.as_str(), COHERENCE_DIR);
        let b = join_path(a.as_str(), RUNS_ROOT_SEGMENT);
        join_path(b.as_str(), self.run_id.as_str())
    }

    /// `artifacts/` under the run root.
    pub fn artifacts_dir(&self) -> (r: String)
        ensures
            r@ == join_path_spec(run_root_spec(self.workspace_root@, self.run_id@), ARTIFACTS_SEGMENT@),
    {
        let root = self.run_root();
        join_path(root.as_str(), ARTIFACTS_SEGMENT)
    }

    /// `metadata/` under the run root: manifests, snapshot envelopes.
    pub fn metadata_dir(&self) -> (r: String)
        ensures
            r@ == metadata_dir_spec(*self),
    {
        let root = self.run_root();
        join_path(root.as_str(), METADATA_SEGMENT)
    }

    /// `metadata/observations/`
    pub fn observations_dir(&self) -> (r: String)
        ensures
            r@ == join_path_spec(metadata_dir_spec(*self), OBSERVATIONS_SEGMENT@),
    {
        let m = self.metadata_dir();
        join_path(m.as_str(), OBSERVATIONS_SEGMENT)
    }

    /// `metadata/run.json`
    pub fn run_manifest_path(&self) -> (r: String)
        ensures
            r@ == join_path_spec(metadata_dir_spec(*self), RUN_MANIFEST_FILE@),
    {
        let m = self.metadata_dir();
        join_path(m.as_str(), RUN_MANIFEST_FILE)
    }

    /// `metadata/canonical-pointer.json`
    pub fn canonical_pointer_stub_path(&self) -> (r: String)
        ensures
            r@ == join_path_spec(metadata_dir_spec(*self), CANONICAL_POINTER_STUB_FILE@),
    {
        let m = self.metadata_dir();
        join_path(m.as_str(), CANONICAL_POINTER_STUB_FILE)
    }
}

/// Top-level metadata for a run directory.
#[derive(Debug)]
pub struct RunManifest {
    pub schema_version: u32,
    pub run_id: String,
    /// When the run directory was created.
    pub created_at: String,
}

/// Metadata only, the shape of a future canonical row: no inline payload.
#[derive(Debug)]
pub struct CanonicalEvidencePointer {
    pub run_id: String,
    /// Relative to the workspace root, `/`-separated (e.g. `.coherence/runs/abc`).
    pub evidence_root_relpath: String,
    pub observation_id: String,
    /// Relative to the run root.
    pub artifact_relpath_from_run_root: String,
    pub payload_sha256_hex: String,
    pub payload_summary: String,
}

/// The file of the artifact that `pointer` refers to, under `workspace`.
pub fn resolve_artifact_path(workspace: &str, pointer: &CanonicalEvidencePointer) -> (r: String)
    ensures
        r@ == join_path_spec(
            join_path_spec(workspace@, pointer.evidence_root_relpath@),
            pointer.artifact_relpath_from_run_root@,
        ),
{
    let root = join_path(workspace, pointer.evidence_root_relpath.as_str());
    join_path(root.as_str(), pointer.artifact_relpath_from_run_root.as_str())
}

/// `unix_timestamp_seconds=<secs>`
pub open spec fn created_at_text(secs: nat) -> Seq<char> {
    "unix_timestamp_seconds="@ + decimal(secs)
}

/// The creation label for a run made `secs` seconds after the Unix epoch.
pub fn created_at_label(secs: usize) -> (r: String)
    ensures
        r@ == created_at_text(secs as nat),
{
    let mut out: Vec<char> = Vec::new();
    append_str(&mut out, "unix_timestamp_seconds=");
    append_decimal(&mut out, secs);
    string_from_chars(out.as_slice())
}

/// The manifest of a new run of `layout`, created at `created_at`.
pub fn new_run_manifest(layout: &RunLayout, created_at: &str) -> (r: RunManifest)
    ensures
        r.schema_version == RUN_MANIFEST_SCHEMA_VERSION,
        r.run_id@ == layout.run_id@,
        r.created_at@ == created_at@,
{
    RunManifest {
        schema_version: RUN_MANIFEST_SCHEMA_VERSION,
        run_id: owned(layout.run_id.as_str()),
        created_at: owned(created_at),
    }
}

/// The manifest to write so that the run of `layout` is initialized: none when one exists
/// already, else a new one created at `created_at`.
pub fn ensure_run_initialized(layout: &RunLayout, manifest_exists: bool, created_at: &str) -> (r: Option<
    RunManifest,
>)
    ensures
        manifest_exists ==> r is None,
        !manifest_exists ==> (r matches Some(m) && m.schema_version == RUN_MANIFEST_SCHEMA_VERSION
            && m.run_id@ == layout.run_id@ && m.created_at@ == created_at@),
{
    if manifest_exists {
        None
    } else {
        Some(new_run_manifest(layout, created_at))
    }
}

/// Error when the run root does not lie under the workspace root.
pub open spec fn outside_workspace_message() -> Seq<char> {
    "run root must be under workspace_root"@
}

/// The run root relative to the workspace root, its components joined by `/`.
pub open spec fn evidence_root_relpath_spec(l: RunLayout) -> Result<Seq<char>, Seq<char>> {
    match strip_components(
        components(run_root_spec(l.workspace_root@, l.run_id@)),
        components(l.workspace_root@),
    ) {
        Some(rest) => Ok(joined(rest, "/"@)),
        None => Err(outside_workspace_message()),
    }
}

/// The run root of `layout` relative to its workspace root, `/`-separated.
pub fn compute_evidence_root_relpath(layout: &RunLayout) -> (r: Result<String, String>)
    ensures
        match r {
            Ok(s) => evidence_root_relpath_spec(*layout) == Ok::<Seq<char>, Seq<char>>(s@),
            Err(e) => evidence_root_relpath_spec(*layout) == Err::<Seq<char>, Seq<char>>(e@),
        },
{
    let root = layout.run_root();
    let rc = path_components(root.as_str());
    let wc = path_components(layout.workspace_root.as_str());
    match strip_prefix_components(rc.as_slice(), wc.as_slice()) {
        Some(rest) => {
            let s = join_messages(rest.as_slice(), "/");
            assert(texts(rest@) == rest@.map_values(|x: String| x@));
            Ok(s)
        },
        None => Err(owned("run root must be under workspace_root")),
    }
}

/// The canonical pointer of the sample run: its artifact, hashed as `artifact_sha256_hex`,
/// and the sample summary.
pub fn sample_pointer(layout: &RunLayout, artifact_sha256_hex: &str) -> (r: Result<CanonicalEvidencePointer, String>)
    ensures
        match r {
            Ok(p) => evidence_root_relpath_spec(*layout) == Ok::<Seq<char>, Seq<char>>(p.evidence_root_relpath@)
                && p.run_id@ == layout.run_id@ && p.observation_id@ == SAMPLE_OBSERVATION_ID@
                && p.artifact_relpath_from_run_root@ == SAMPLE_ARTIFACT_FROM_RUN_ROOT@
                && p.payload_sha256_hex@ == artifact_sha256_hex@ && p.payload_summary@ == SAMPLE_PAYLOAD_SUMMARY@,
            Err(e) => evidence_root_relpath_spec(*layout) == Err::<Seq<char>, Seq<char>>(e@),
        },
{
    let rel = match compute_evidence_root_relpath(layout) {
        Ok(s) => s,
        Err(e) => return Err(e),
    };
    Ok(CanonicalEvidencePointer {
        run_id: owned(layout.run_id.as_str()),
        evidence_root_relpath: rel,
        observation_id: owned(SAMPLE_OBSERVATION_ID),
        artifact_relpath_from_run_root: owned(SAMPLE_ARTIFACT_FROM_RUN_ROOT),
        payload_sha256_hex: owned(artifact_sha256_hex),
        payload_summary: owned(SAMPLE_PAYLOAD_SUMMARY),
    })
}

/// SHA-256 hex of the UTF-8 bytes of a payload's compact JSON text: the content hash of a
/// snapshot whose payload is inline.
pub fn snapshot_payload_content_hash(payload_json: &str) -> (r: String)
    ensures
        r@ == hex_lower(sha256_of(encode_utf8(payload_json@))),
{
    sha256_hex(payload_json.as_bytes())
}

/// The payload of the sample snapshot: its summary, plan id and the artifact's path from
/// the run root.
pub open spec fn sample_payload_entries() -> Seq<(Seq<char>, Seq<char>)> {
    seq![
        ("summary"@, json_string_literal(SAMPLE_PAYLOAD_SUMMARY@)),
        ("plan_id"@, json_string_literal("plan-demo"@)),
        ("artifact_relpath_from_run_root"@, json_string_literal(SAMPLE_ARTIFACT_FROM_RUN_ROOT@)),
    ]
}

/// The compact JSON payload of the sample snapshot.
pub fn sample_payload_json() -> (r: String)
    ensures
        r@ == object_text(sample_payload_entries()),
{
    let mut f: Vec<(String, JsonScalar)> = Vec::new();
    f.push((owned("summary"), JsonScalar::Text(owned(SAMPLE_PAYLOAD_SUMMARY))));
    f.push((owned("plan_id"), JsonScalar::Text(owned("plan-demo"))));
    f.push((owned("artifact_relpath_from_run_root"), JsonScalar::Text(owned(SAMPLE_ARTIFACT_FROM_RUN_ROOT))));
    proof {
        reveal_strlit("summary");
        reveal_strlit("plan_id");
        reveal_strlit("plan-demo");
        reveal_strlit("artifact_relpath_from_run_root");
        assert(entries(f@) =~= sample_payload_entries());
    }
    json_object(&f)
}

/// The sample run's artifact: `SAMPLE_ARTIFACT_LEN` bytes of `SAMPLE_ARTIFACT_BYTE`.
pub fn sample_artifact_body() -> (r: Vec<u8>)
    ensures
        r@.len() == SAMPLE_ARTIFACT_LEN,
        forall|i: int| 0 <= i < r@.len() ==> r@[i] == SAMPLE_ARTIFACT_BYTE,
{
    let mut v: Vec<u8> = Vec::new();
    while v.len() < SAMPLE_ARTIFACT_LEN
        invariant
            v@.len() <= SAMPLE_ARTIFACT_LEN,
            forall|i: int| 0 <= i < v@.len() ==> v@[i] == SAMPLE_ARTIFACT_BYTE,
        decreases SAMPLE_ARTIFACT_LEN - v@.len(),
    {
        v.push(SAMPLE_ARTIFACT_BYTE);
    }
    v
}


/// The evidence of a run whose id is a single name lies at `.coherence/runs/<run-id>` under the
/// workspace root, whatever that root is.
pub proof fn lemma_evidence_root_under_runs(l: RunLayout)
    requires
        plain_name(l.run_id@),
    ensures
        evidence_root_relpath_spec(l) == Ok::<Seq<char>, Seq<char>>(".coherence/runs/"@ + l.run_id@),
{
    reveal_strlit(".coherence");
    reveal_strlit("runs");
    reveal_strlit(".coherence/runs/");
    reveal_strlit("/");
    let ws = l.workspace_root@;
    let a = join_path_spec(ws, COHERENCE_DIR@);
    let b = join_path_spec(a, RUNS_ROOT_SEGMENT@);
    assert(plain_name(COHERENCE_DIR@)) by {
        assert(COHERENCE_DIR@ != seq!['.']) by {
            assert(COHERENCE_DIR@.len() != 1);
        }
    }
    assert(plain_name(RUNS_ROOT_SEGMENT@));
    lemma_components_join_name(ws, COHERENCE_DIR@);
    lemma_components_join_name(a, RUNS_ROOT_SEGMENT@);
    lemma_components_join_name(b, l.run_id@);
    let cw = components(ws);
    let full = components(run_root_spec(ws, l.run_id@));
    let tail = seq![COHERENCE_DIR@, RUNS_ROOT_SEGMENT@, l.run_id@];
    assert(full =~= cw + tail);
    assert(full.subrange(0, cw.len() as int) =~= cw);
    assert(full.subrange(cw.len() as int, full.len() as int) =~= tail);
    assert(tail.drop_last().drop_last() =~= seq![COHERENCE_DIR@]);
    assert(tail.drop_last() =~= seq![COHERENCE_DIR@, RUNS_ROOT_SEGMENT@]);
    assert(joined(seq![COHERENCE_DIR@], "/"@) == COHERENCE_DIR@);
    assert(joined(tail.drop_last(), "/"@) == COHERENCE_DIR@ + "/"@ + RUNS_ROOT_SEGMENT@);
    assert(joined(tail, "/"@) == COHERENCE_DIR@ + "/"@ + RUNS_ROOT_SEGMENT@ + "/"@ + l.run_id@);
    assert(COHERENCE_DIR@ + "/"@ + RUNS_ROOT_SEGMENT@ + "/"@ =~= ".coherence/runs/"@);
    assert(joined(tail, "/"@) =~= ".coherence/runs/"@ + l.run_id@);
}
} // verus!
