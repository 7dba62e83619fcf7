# coherence_core_db

A spec / acceptance-criterion store and its tooling: specs, acceptance criteria (ACs),
relations between specs, code locations that verify ACs, verification runs and their
evidence, a project manifest that binds a repository to a Dolt/MySQL catalog, a guard
that keeps test writes away from real catalogs, a command line, a terminal UI and a
CodeScene X-Ray report.

The decisions of all of these are a verified library; the database, the file system,
the terminal and the network are driven from a thin program around it.

## Layout

- `src/` — the library, verified with Verus. Every public function states what it
  returns in its `ensures`; the laws that span several functions are public proof
  functions (`lemma_…`) beside the code they speak of.
  - `models`, `spec_store`, `ac_code_link_store`, `ac_verification_store`: the data
    model, row decoding and the rules that the stores enforce.
  - `ac_verify`, `ac_test_layout`, `ac_materialize_codeintel_ids`: verification plans
    and results, expected per-AC test files, stable ids of materialized test files.
  - `project_manifest`, `db`, `test_world_guard`: manifest validation and catalog
    naming, connection settings, the test-world write guard.
  - `evidence_store`, `paths`, `digest`: the evidence run layout, a component model of
    Unix paths, SHA-256 hex digests.
  - `cli`, `commands/`: argument parsing and what each command computes and reports.
  - `tui/`: the terminal UI as a state machine — tree, drafts, key bindings, the
    update function and the effects it asks for, and the text that it shows.
  - `codescene_xray`: request URLs, review parsing and report lines of the X-Ray tool.
  - `json_text`: compact JSON objects of text and integer fields.
  - `text`, `text_sort`: string helpers and a stable sort by text key, with proofs.
- `tests/` — tests of the library on concrete values.
- `app/` — the program: `main`, environment and clock, MySQL access and migrations,
  TOML and JSON files, the terminal loop and its rendering, HTTP calls of the X-Ray
  tool.

Outside crates: `sha2` (digests) and `serde_json` (reading an import line, writing a
compact JSON object) are called from the library through trusted wrappers; the program uses `mysql`,
`refinery`, `toml`, `serde`, `serde_json`, `uuid` and `ratatui`.
