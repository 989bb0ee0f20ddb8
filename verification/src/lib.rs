//! Verified core of the Fusion command-line tool: the rules that turn user
//! input, configuration text and module manifests into decisions and file
//! contents. Reading and writing files, networking and prompting live in the
//! application around this library.

pub mod text;
pub mod github;
pub mod update;
pub mod manifest;
pub mod config;
pub mod environment;
pub mod install;
pub mod structure;
pub mod scaffold;
pub mod cli;
pub mod module_files;
pub mod archive;
pub mod json;
