//! Protocol kinds, serialization formats and the communication configuration.

use vstd::prelude::*;

verus! {

/// Protocol types available for communication.
#[derive(Debug, Clone, Copy, PartialEq, Eq, Structural)]
pub enum ProtocolType {
    /// Unix Domain Sockets (Unix-like systems)
    UnixSocket,
    /// Named Pipes (Windows)
    NamedPipe,
    /// Shared Memory (memory-mapped files)
    SharedMemory,
    /// File-based communication
    FileBased,
    /// In-memory communication (for testing)
    InMemory,
}

/// Format for message serialization.
#[derive(Debug, Clone, Copy, PartialEq, Eq, Structural)]
pub enum SerializationFormat {
    /// JSON format (text-based, human readable)
    Json,
    /// MessagePack format (binary, compact, faster)
    MsgPack,
}

/// Communication configuration.
#[derive(Debug, Clone)]
pub struct CommunicationConfig {
    /// Protocol to use
    pub protocol: ProtocolType,
    /// Serialization format to use (default: Json)
    pub serialization_format: SerializationFormat,
    /// Identifier for this communication channel
    pub identifier: String,
    /// Timeout for operations (in milliseconds)
    pub timeout_ms: u64,
    /// Whether to enable fallback protocols
    pub enable_fallback: bool,
    /// List of fallback protocols (in order of preference)
    pub fallback_protocols: Vec<ProtocolType>,
}

/// The mathematical value of a [`CommunicationConfig`].
pub struct ConfigView {
    pub protocol: ProtocolType,
    pub serialization_format: SerializationFormat,
    pub identifier: Seq<char>,
    pub timeout_ms: u64,
    pub enable_fallback: bool,
    pub fallback_protocols: Seq<ProtocolType>,
}

impl View for CommunicationConfig {
    type V = ConfigView;

    open spec fn view(&self) -> ConfigView {
        ConfigView {
            protocol: self.protocol,
            serialization_format: self.serialization_format,
            identifier: self.identifier@,
            timeout_ms: self.timeout_ms,
            enable_fallback: self.enable_fallback,
            fallback_protocols: self.fallback_protocols@,
        }
    }
}

/// The protocol a configuration uses unless told otherwise.
pub open spec fn spec_default_protocol() -> ProtocolType {
    ProtocolType::SharedMemory
}

/// The fallback order a configuration uses unless told otherwise.
pub open spec fn spec_default_fallback_protocols() -> Seq<ProtocolType> {
    seq![ProtocolType::FileBased, ProtocolType::InMemory, ProtocolType::SharedMemory]
}

/// The default configuration, as a mathematical value.
pub open spec fn spec_default_config() -> ConfigView {
    ConfigView {
        protocol: spec_default_protocol(),
        serialization_format: SerializationFormat::Json,
        identifier: "default"@,
        timeout_ms: 5000,
        enable_fallback: true,
        fallback_protocols: spec_default_fallback_protocols(),
    }
}

impl Default for CommunicationConfig {
    fn default() -> (config: Self)
        ensures
            config@ == spec_default_config(),
            config.protocol == ProtocolType::SharedMemory,
            config.serialization_format == SerializationFormat::Json,
            config.identifier@ == "default"@,
            config.timeout_ms == 5000,
            config.enable_fallback,
            config.fallback_protocols@ == seq![
                ProtocolType::FileBased,
                ProtocolType::InMemory,
                ProtocolType::SharedMemory,
            ],
    {
        CommunicationConfig {
            protocol: Self::default_protocol(),
            serialization_format: SerializationFormat::Json,
            identifier: String::from_str("default"),
            timeout_ms: 5000,
            enable_fallback: true,
            fallback_protocols: Self::default_fallback_protocols(),
        }
    }
}

impl CommunicationConfig {
    /// Get the default protocol for the current platform.
    pub fn default_protocol() -> (p: ProtocolType)
        ensures
            p == spec_default_protocol(),
    {
        ProtocolType::SharedMemory
    }

    /// Get the default fallback protocols for the current platform.
    pub fn default_fallback_protocols() -> (ps: Vec<ProtocolType>)
        ensures
            ps@ == spec_default_fallback_protocols(),
    {
        vec![ProtocolType::FileBased, ProtocolType::InMemory, ProtocolType::SharedMemory]
    }

    /// A copy of this configuration, field by field.
    pub fn duplicate(&self) -> (copy: Self)
        ensures
            copy@ == self@,
    {
        CommunicationConfig {
            protocol: self.protocol,
            serialization_format: self.serialization_format,
            identifier: self.identifier.clone(),
            timeout_ms: self.timeout_ms,
            enable_fallback: self.enable_fallback,
            fallback_protocols: self.fallback_protocols.clone(),
        }
    }
}

/// The default configuration speaks JSON over shared memory, waits 5000 ms,
/// and falls back to the file-based, in-memory and shared-memory protocols
/// in that order; its identifier is "default".
pub proof fn lemma_default_config_values()
    ensures
        spec_default_config().protocol == ProtocolType::SharedMemory,
        spec_default_config().serialization_format == SerializationFormat::Json,
        spec_default_config().identifier == "default"@,
        spec_default_config().timeout_ms == 5000,
        spec_default_config().enable_fallback,
        spec_default_config().fallback_protocols == seq![
            ProtocolType::FileBased,
            ProtocolType::InMemory,
            ProtocolType::SharedMemory,
        ],
{
}

} // verus!
