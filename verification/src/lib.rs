//! Execution front end of a small interpreted language: selects an input mode
//! from the invocation arguments, routes source text into the language
//! pipeline (whole file or one interactive line at a time), and maps each
//! outcome to a process exit status.

pub mod entry;
pub mod loader;
pub mod pipeline;
pub mod session;
