//! Container lifecycle bridge: the decisions and parsers behind a desktop
//! front end that drives a container runtime through its command line.
//!
//! The library starts no process. An operation is a protocol: it hands out
//! an invocation, takes the outcome that the caller's process invoker
//! brings back, and answers with the next invocation or with the result.
//!
//! - [`lifecycle`]: the four operations (launch, stop, list, report) as
//!   protocols, and what holds of every run of them
//! - [`commands`]: the command lines that go to the runtime
//! - [`process`]: invocations and their outcomes
//! - [`listing`]: the reader of the tabular container listing
//! - [`info`]: the reader of the JSON system report
//! - [`envelope`]: the result that every operation hands back
//! - [`text`]: white space, lines, fields and numerals
//! - [`json`]: the boundary to the JSON parser

pub mod commands;
pub mod envelope;
pub mod info;
pub mod json;
pub mod lifecycle;
pub mod listing;
pub mod process;
pub mod text;
