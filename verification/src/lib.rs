//! The logic of the agent that watches a sample inside an analysis VM.
//!
//! - [`domain`]: the rules: which processes are in scope, which files are drops,
//!   how command lines are cut and put together, how copies are named.
//! - [`plugins`]: the pipeline's stages. Each takes events in and says what is to
//!   be published, copied, launched or finalized.
//! - [`app`]: events, the command line, the job queues and the assembly.
//! - [`adapters`]: what the outside world's doings mean: broker, clock, kernel
//!   trace, pipe protocol, process launch and cleanup, storage, service manager.
//! - [`protocol`]: configuration, payloads and frames.
//! - [`ports`]: what adapters and plugins say to each other.
//!
//! The crate performs no input or output. Where a decision needs some, a function
//! names the next step and another takes in how it went, so that every outcome is
//! covered by a contract. The `law_` functions state what holds across calls.

use vstd::prelude::*;

pub mod adapters;
pub mod app;
pub mod collections;
pub mod domain;
pub mod plugins;
pub mod ports;
pub mod protocol;
pub mod tally_laws;
pub mod telemetry;
pub mod text;
pub mod text_laws;
pub mod utf16;

verus! {

/// The program's name on disk.
pub const NAME: &'static str = "secoutfall-agent";

} // verus!
