//! Single-instance enforcement and inter-process messaging.
//!
//! The library holds the decisions of the IPC stack: configuration and its
//! defaults, protocol selection, message construction, the shared-memory
//! frame layout, request/response correlation, the state of the clients, and
//! the state machines that decide whether a process becomes the primary
//! instance and which stale files it may remove.  The I/O that carries these
//! decisions out lives in the application crate.

pub mod broker;
pub mod cleanup;
pub mod client;
pub mod error;
pub mod factory;
pub mod frame;
pub mod json;
pub mod message;
pub mod paths;
pub mod pid;
pub mod polling;
pub mod server;
pub mod serving;
pub mod single_instance;
pub mod text;
pub mod transport;
pub mod types;

pub use broker::RequestBroker;
pub use cleanup::{CleanupAction, CleanupEvent, StaleCleanup};
pub use client::IpcClient;
pub use error::CommunicationError;
pub use factory::{
    CommunicationFactory, FileBasedProtocol, InMemoryProtocol, ProtocolImpl, SharedMemoryProtocol,
    UnixSocketProtocol,
};
pub use json::{JsonMember, JsonValue};
pub use message::{current_timestamp, uuid_v4, CommunicationMessage};
pub use paths::get_temp_path;
pub use server::IpcServer;
pub use single_instance::{EnforcementAction, EnforcementEvent, SingleInstanceApp};
pub use transport::{FileBasedClient, SharedMemoryClient};
pub use types::{CommunicationConfig, ConfigView, ProtocolType, SerializationFormat};

use vstd::prelude::*;

verus! {

/// Message types for IPC communication (legacy compatibility).
#[derive(Debug, PartialEq, Clone)]
pub enum Message {
    CommandLineArgs(Vec<String>),
    Response(String),
    Error(String),
}

} // verus!
