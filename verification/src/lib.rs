//! Verified core of a Flutter/Dart code generator: asset constant classes,
//! Freezed/JSON templates, Riverpod providers and configuration handling.

pub mod text;
pub mod primitives;
pub mod commands;
pub mod config;
