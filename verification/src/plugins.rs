//! The agent's plugins: each decides what to do about an event; its host does it.

pub mod collection_laws;
pub mod drops_collector;
pub mod event_reporter;
pub mod launch_laws;
pub mod lifecycle_laws;
pub mod report_laws;
pub mod scope_tracker;
pub mod scoring;
pub mod screenshot_intake;
pub mod session_manager;
pub mod statistics;
pub mod study_laws;
pub mod target_launcher;
pub mod tracking_laws;
pub mod wire;
