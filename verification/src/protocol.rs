//! What the agent exchanges with the Controller and with the user actor.

pub mod config;
pub mod events;
pub mod ipc;
pub mod nats;
pub mod payload;
