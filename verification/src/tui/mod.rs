pub mod tree;
pub mod edit;
pub mod app;
pub mod action;
pub mod effects;
pub mod update;
pub mod ui;
pub mod project_discovery;
