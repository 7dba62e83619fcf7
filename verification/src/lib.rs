pub mod ac_code_link_store;
pub mod ac_materialize_codeintel_ids;
pub mod ac_test_layout;
pub mod ac_verification_store;
pub mod ac_verify;
pub mod cli;
pub mod codescene_xray;
pub mod commands;
pub mod db;
pub mod digest;
pub mod evidence_store;
pub mod json_text;
pub mod models;
pub mod paths;
pub mod project_manifest;
pub mod spec_store;
pub mod text;
pub mod text_sort;
pub mod test_world_guard;
pub mod tui;
