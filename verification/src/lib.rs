//! A small launcher library: decide whether to compile-and-run a standalone
//! source file or to delegate to the project build tool, and plan the exact
//! commands to spawn, the diagnostics to print and the exit code to return.
//!
//! The library itself spawns nothing: it turns plain inputs (the parsed
//! command line, whether an enclosing project root was found, the outcome of
//! each spawned process) into the next command to run, so that every decision
//! is verified while a thin shell performs the actual process handling.

pub mod command;
pub mod launch;
pub mod mode;
pub mod paths;
