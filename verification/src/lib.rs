//! Detection of shell command injection at process-spawning call sites.
//!
//! A call site that builds and runs an external process is described by a
//! [`invocation::ProcessInvocation`]: the program, and the arguments as the
//! expressions that produce them. Given a [`catalog::Catalog`] of known shell
//! interpreters, [`engine::analyze`] decides whether the call hands a string
//! with runtime-controlled content to a shell, which would parse and run it.
//!
//! - [`argument`]: argument expressions and their classification as
//!   literal, interpolated or opaque.
//! - [`name`]: how program paths are compared with the names in a catalog.
//! - [`catalog`]: the shells, their program names and their command flags.
//! - [`invocation`]: invocations, and the builder that collects their
//!   arguments.
//! - [`verdict`]: verdicts and their reasons.
//! - [`engine`]: the analysis itself.
//! - [`laws`]: what holds of every verdict.
//! - [`report`]: call sites that extraction could not capture, and counts.
//! - [`oracle`]: annotations that say which verdict a call site must get.
//! - [`samples`]: sample call sites, as the command lines they run.
//! - [`text`]: helpers on strings.

pub mod argument;
pub mod catalog;
pub mod engine;
pub mod invocation;
pub mod laws;
pub mod name;
pub mod oracle;
pub mod report;
pub mod samples;
pub mod text;
pub mod verdict;
