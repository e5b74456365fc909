//! The logic of the driving and driven adapters.

pub mod broker;
pub mod broker_nats;
pub mod clock;
pub mod etw;
pub mod etw_laws;
pub mod etw_mapping;
pub mod event_source_fake;
pub mod host_laws;
pub mod ipc_server;
pub mod killer;
pub mod launcher;
pub mod schedtask;
pub mod scheduler;
pub mod scope_store;
pub mod service_control;
pub mod shell_association;
pub mod upload;
pub mod wire_laws;
