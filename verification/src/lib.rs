//! Reads and bumps a semantic version stored at a dotted path inside a JSON,
//! YAML or TOML document.

pub mod command;
pub mod error;
pub mod format;
pub mod json;
pub mod tree;
pub mod text;
pub mod toml;
pub mod version;
pub mod yaml;
