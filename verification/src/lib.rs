//! Guarded adapter logic for the `dpm` command line tool: the MCP session and
//! its replies, the command lines that the three tools run, what a finished
//! run reports, and the rules of the repository and certification checks.

pub mod certify;
pub mod execution;
pub mod json;
pub mod protocol;
pub mod repository;
pub mod text;
pub mod tools;
