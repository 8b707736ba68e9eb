//! Command composition for a colcon workspace: staged builders that turn a
//! build profile and a verb into the exact argument sequence of the tool to
//! launch, the workflow that orders the launches and ends at the first
//! failure, and the search for the workspace and the package that a command
//! applies to. Nothing here launches a process or touches the file system:
//! the caller does, and hands back what it saw.

pub mod args;
pub mod banner;
pub mod builder;
pub mod config;
pub mod exec;
pub mod grammar;
pub mod resolve;
pub mod text;
pub mod upkeep;
pub mod workflow;
