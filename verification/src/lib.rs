//! Executable specifications written in markdown.
//!
//! A specification document carries annotations such as `script(name="x")`,
//! `verify(script_name="x", stream=stdout)` and `file(path="y")` on its code
//! blocks and blockquotes. The annotations are parsed into typed actions,
//! and the actions are run in document order: scripts are handed to an
//! executor, their captured output is compared with what later blocks
//! expect, and the resulting events are folded into an exit code.

pub mod assoc;
pub mod commands;
pub mod exit_codes;
pub mod parser;
pub mod results;
pub mod runner;
pub mod text;
pub mod types;
