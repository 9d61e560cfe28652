//! IPC client configuration.
//!
//! [`IpcClient`] provides a builder API for configuring a client connection;
//! connecting and exchanging messages is done by the application over the
//! configuration built here.

use vstd::prelude::*;
use crate::error::CommunicationError;
use crate::types::{CommunicationConfig, ConfigView, ProtocolType, SerializationFormat, spec_default_config};

verus! {

/// IPC client with a builder-style configuration API.
pub struct IpcClient {
    config: CommunicationConfig,
}

impl IpcClient {
    /// The client's configuration.
    pub closed spec fn config_view(&self) -> ConfigView {
        self.config@
    }

    /// Create a new `IpcClient` for the given application identifier.
    pub fn new(identifier: &str) -> (r: Result<Self, CommunicationError>)
        ensures
            r matches Ok(c) && c.config_view() == (ConfigView {
                identifier: identifier@,
                ..spec_default_config()
            }),
            r matches Ok(c) && c.config_view().serialization_format == SerializationFormat::Json
                && c.config_view().protocol == ProtocolType::SharedMemory,
    {
        let mut config = CommunicationConfig::default();
        config.identifier = String::from_str(identifier);
        Ok(IpcClient { config })
    }

    /// Return a reference to the current configuration.
    pub fn config(&self) -> (c: &CommunicationConfig)
        ensures
            c@ == self.config_view(),
    {
        &self.config
    }

    /// Configure the communication protocol.
    pub fn with_protocol(self, protocol: ProtocolType) -> (c: Self)
        ensures
            c.config_view() == (ConfigView { protocol, ..self.config_view() }),
    {
        let mut c = self;
        c.config.protocol = protocol;
        c
    }

    /// Configure the serialization format.
    pub fn with_serialization_format(self, format: SerializationFormat) -> (c: Self)
        ensures
            c.config_view() == (ConfigView { serialization_format: format, ..self.config_view() }),
    {
        let mut c = self;
        c.config.serialization_format = format;
        c
    }

    /// Configure the timeout (milliseconds) for communication operations.
    pub fn with_timeout(self, timeout_ms: u64) -> (c: Self)
        ensures
            c.config_view() == (ConfigView { timeout_ms, ..self.config_view() }),
    {
        let mut c = self;
        c.config.timeout_ms = timeout_ms;
        c
    }
}

} // verus!
