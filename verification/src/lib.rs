//! Configuration model, validation and migration logic for the Noctalia shell.

pub mod text;
pub mod ieee_bits;
pub mod schema;
pub mod types;
pub mod value;
pub mod toml_text;
pub mod merge;
pub mod migrations;
pub mod state_store;
pub mod validate;
pub mod cli;
pub mod service;
