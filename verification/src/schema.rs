//! Schema support: diagnostics, numeric ranges, section registry and helpers.

pub mod diagnostics;
pub mod ranges;
pub mod widget_schema;
pub mod config_sections;
pub mod config_schema;
pub mod registry;
pub mod value_checks;
pub mod section_readers;
pub mod fields;
pub mod plain_sections;
pub mod template_section;
pub mod optional_sections;
pub mod nested_sections;
pub mod enum_sections;
pub mod monitor_sections;
