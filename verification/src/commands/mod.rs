pub mod cli_parse;
pub mod ac_tests_cmd;
pub mod project_init_cmd;
pub mod db_import_jsonl;
pub mod verify_ac_cmd;
pub mod verify_spec_cmd;
pub mod spec_cmd;
pub mod ac_cmd;
pub mod db_truncate;
pub mod db_export_jsonl;
pub mod drop_isolated_test_db;
pub mod m1_spec_smoke;
pub mod project_cmd;
pub mod evidence_sample_cmd;
