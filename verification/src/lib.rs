//! Bootstrap logic for launching the Roslyn language server from an editor
//! extension: resolving which executable to run, building the initialization
//! notification from discovered project files, and reporting the workspace
//! configuration.

pub mod json;
pub mod projects;
pub mod roslyn;

pub use projects::path_to_uri;
pub use roslyn::{BinarySettings, Command, Roslyn};
