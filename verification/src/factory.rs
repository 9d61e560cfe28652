//! Which protocol implementations exist, and how one is chosen.

use vstd::prelude::*;
use crate::error::CommunicationError;
use crate::types::ProtocolType;

verus! {

/// File-based communication protocol implementation.
#[derive(Debug)]
pub struct FileBasedProtocol;

/// In-memory communication protocol implementation.
#[derive(Debug)]
pub struct InMemoryProtocol;

/// Shared memory communication protocol implementation.
#[derive(Debug)]
pub struct SharedMemoryProtocol;

/// Unix Domain Socket protocol implementation.
#[derive(Debug)]
pub struct UnixSocketProtocol;

impl FileBasedProtocol {
    /// Get the protocol type.
    pub fn protocol_type(&self) -> (p: ProtocolType)
        ensures
            p == ProtocolType::FileBased,
    {
        ProtocolType::FileBased
    }
}

impl InMemoryProtocol {
    /// Get the protocol type.
    pub fn protocol_type(&self) -> (p: ProtocolType)
        ensures
            p == ProtocolType::InMemory,
    {
        ProtocolType::InMemory
    }
}

impl SharedMemoryProtocol {
    /// Get the protocol type.
    pub fn protocol_type(&self) -> (p: ProtocolType)
        ensures
            p == ProtocolType::SharedMemory,
    {
        ProtocolType::SharedMemory
    }
}

impl UnixSocketProtocol {
    /// Get the protocol type.
    pub fn protocol_type(&self) -> (p: ProtocolType)
        ensures
            p == ProtocolType::UnixSocket,
    {
        ProtocolType::UnixSocket
    }
}

/// One of the protocol implementations.
#[derive(Debug)]
pub enum ProtocolImpl {
    UnixSocket(UnixSocketProtocol),
    SharedMemory(SharedMemoryProtocol),
    FileBased(FileBasedProtocol),
    InMemory(InMemoryProtocol),
}

impl ProtocolImpl {
    /// The protocol kind that an implementation serves.
    pub open spec fn kind(self) -> ProtocolType {
        match self {
            ProtocolImpl::UnixSocket(_) => ProtocolType::UnixSocket,
            ProtocolImpl::SharedMemory(_) => ProtocolType::SharedMemory,
            ProtocolImpl::FileBased(_) => ProtocolType::FileBased,
            ProtocolImpl::InMemory(_) => ProtocolType::InMemory,
        }
    }

    /// Get the protocol type.
    pub fn protocol_type(&self) -> (p: ProtocolType)
        ensures
            p == self.kind(),
    {
        match self {
            ProtocolImpl::UnixSocket(p) => p.protocol_type(),
            ProtocolImpl::SharedMemory(p) => p.protocol_type(),
            ProtocolImpl::FileBased(p) => p.protocol_type(),
            ProtocolImpl::InMemory(p) => p.protocol_type(),
        }
    }
}

/// The protocols implemented on this platform, in order of preference.
pub open spec fn available_protocols() -> Seq<ProtocolType> {
    seq![
        ProtocolType::UnixSocket,
        ProtocolType::SharedMemory,
        ProtocolType::FileBased,
        ProtocolType::InMemory,
    ]
}

/// Factory for creating communication protocols.
pub struct CommunicationFactory;

impl CommunicationFactory {
    /// Create a protocol implementation.
    ///
    /// Every protocol but named pipes has an implementation here; named pipes
    /// are refused as not supported.
    pub fn create_protocol(protocol_type: ProtocolType) -> (r: Result<ProtocolImpl, CommunicationError>)
        ensures
            r matches Ok(p) ==> p.kind() == protocol_type,
            r is Ok <==> available_protocols().contains(protocol_type),
            r matches Err(e) ==> (e matches CommunicationError::ProtocolNotSupported(m) && m@
                == "NamedPipe is only supported on Windows"@),
    {
        proof {
            assert(available_protocols()[0] == ProtocolType::UnixSocket);
            assert(available_protocols()[1] == ProtocolType::SharedMemory);
            assert(available_protocols()[2] == ProtocolType::FileBased);
            assert(available_protocols()[3] == ProtocolType::InMemory);
        }
        match protocol_type {
            ProtocolType::UnixSocket => Ok(ProtocolImpl::UnixSocket(UnixSocketProtocol)),
            ProtocolType::SharedMemory => Ok(ProtocolImpl::SharedMemory(SharedMemoryProtocol)),
            ProtocolType::FileBased => Ok(ProtocolImpl::FileBased(FileBasedProtocol)),
            ProtocolType::InMemory => Ok(ProtocolImpl::InMemory(InMemoryProtocol)),
            ProtocolType::NamedPipe => Err(
                CommunicationError::ProtocolNotSupported(
                    String::from_str("NamedPipe is only supported on Windows"),
                ),
            ),
        }
    }

    /// Get available protocols for the current platform.
    pub fn get_available_protocols() -> (ps: Vec<ProtocolType>)
        ensures
            ps@ == available_protocols(),
    {
        vec![
            ProtocolType::UnixSocket,
            ProtocolType::SharedMemory,
            ProtocolType::FileBased,
            ProtocolType::InMemory,
        ]
    }
}

} // verus!
