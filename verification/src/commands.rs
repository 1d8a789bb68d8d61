//! Code generators for Dart/Flutter projects.

pub mod provider_gen;
pub mod freezed_gen;
pub mod freezed_templates;
pub mod freezed_json;
pub mod assets;
pub mod generate;
pub mod syntax_tree;
pub mod generate_templates;
