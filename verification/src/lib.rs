//! Build-and-run driver for Qmm-lang projects.
//!
//! The library holds the decision logic of the tool: the manifest model
//! (package identity and dependency declarations), the staged build
//! pipeline as a state machine whose outside work (front end, native
//! toolchain, file system) is performed by the caller, the execution
//! wrapper's outcome classification, and the project scaffolding texts.

pub mod driver;
pub mod manifest;
pub mod pipeline;
pub mod runner;
pub mod scaffold;
pub mod toml_read;
pub mod toml_tree;
