//! The application core: inbound events, composition and the session runtime's
//! decisions.

pub mod assembly_laws;
pub mod builder;
pub mod cli;
pub mod cli_laws;
pub mod event;
pub mod runtime;
pub mod worker;
