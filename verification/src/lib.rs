//! Decision engine for keeping a project's Python environment in step with
//! its pinned dependency manifests.
//!
//! The engine never touches the file system or starts a process itself. It
//! classifies what was found on disk, decides whether the environment is
//! kept, created or destroyed and rebuilt, and then walks the caller through
//! the remaining phases one action at a time. The caller performs each action
//! and reports how it ended.

pub mod command;
pub mod descriptor;
pub mod environment;
pub mod error;
pub mod laws;
pub mod model;
pub mod options;
pub mod orchestrator;
pub mod version;
