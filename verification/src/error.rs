//! Errors of the communication layer.

use vstd::prelude::*;
use crate::text::{has_substring, contains_text, join2};

verus! {

/// Communication error types.
#[derive(Debug)]
pub enum CommunicationError {
    /// Connection failed
    ConnectionFailed(String),
    /// Message serialization failed
    SerializationFailed(String),
    /// Message deserialization failed
    DeserializationFailed(String),
    /// Protocol not supported on this platform
    ProtocolNotSupported(String),
    /// Communication timeout
    Timeout(String),
    /// Resource not found
    ResourceNotFound(String),
    /// Permission denied
    PermissionDenied(String),
    /// Other I/O errors
    IoError(String),
}

impl CommunicationError {
    /// The detail text that every variant carries.
    pub open spec fn detail(self) -> Seq<char> {
        match self {
            CommunicationError::ConnectionFailed(m) => m@,
            CommunicationError::SerializationFailed(m) => m@,
            CommunicationError::DeserializationFailed(m) => m@,
            CommunicationError::ProtocolNotSupported(m) => m@,
            CommunicationError::Timeout(m) => m@,
            CommunicationError::ResourceNotFound(m) => m@,
            CommunicationError::PermissionDenied(m) => m@,
            CommunicationError::IoError(m) => m@,
        }
    }

    /// The words that introduce each variant in its displayed form.
    pub open spec fn heading(self) -> Seq<char> {
        match self {
            CommunicationError::ConnectionFailed(_) => "Connection failed: "@,
            CommunicationError::SerializationFailed(_) => "Serialization failed: "@,
            CommunicationError::DeserializationFailed(_) => "Deserialization failed: "@,
            CommunicationError::ProtocolNotSupported(_) => "Protocol not supported: "@,
            CommunicationError::Timeout(_) => "Timeout: "@,
            CommunicationError::ResourceNotFound(_) => "Resource not found: "@,
            CommunicationError::PermissionDenied(_) => "Permission denied: "@,
            CommunicationError::IoError(_) => "I/O error: "@,
        }
    }

    /// The human-readable form of the error.
    pub open spec fn display_text(self) -> Seq<char> {
        self.heading() + self.detail()
    }

    /// The human-readable form of the error: the variant's heading, then its detail.
    pub fn to_string(&self) -> (s: String)
        ensures
            s@ == self.display_text(),
    {
        match self {
            CommunicationError::ConnectionFailed(m) => join2("Connection failed: ", m.as_str()),
            CommunicationError::SerializationFailed(m) => join2(
                "Serialization failed: ",
                m.as_str(),
            ),
            CommunicationError::DeserializationFailed(m) => join2(
                "Deserialization failed: ",
                m.as_str(),
            ),
            CommunicationError::ProtocolNotSupported(m) => join2(
                "Protocol not supported: ",
                m.as_str(),
            ),
            CommunicationError::Timeout(m) => join2("Timeout: ", m.as_str()),
            CommunicationError::ResourceNotFound(m) => join2("Resource not found: ", m.as_str()),
            CommunicationError::PermissionDenied(m) => join2("Permission denied: ", m.as_str()),
            CommunicationError::IoError(m) => join2("I/O error: ", m.as_str()),
        }
    }

    /// The lower-level error that caused this one: there never is one.
    pub fn source(&self) -> (r: Option<&CommunicationError>)
        ensures
            r is None,
    {
        None
    }

    /// A field-by-field copy of the error.
    pub fn duplicate(&self) -> (e: CommunicationError)
        ensures
            e == *self,
    {
        match self {
            CommunicationError::ConnectionFailed(m) => CommunicationError::ConnectionFailed(m.clone()),
            CommunicationError::SerializationFailed(m) => CommunicationError::SerializationFailed(
                m.clone(),
            ),
            CommunicationError::DeserializationFailed(m) => CommunicationError::DeserializationFailed(
                m.clone(),
            ),
            CommunicationError::ProtocolNotSupported(m) => CommunicationError::ProtocolNotSupported(
                m.clone(),
            ),
            CommunicationError::Timeout(m) => CommunicationError::Timeout(m.clone()),
            CommunicationError::ResourceNotFound(m) => CommunicationError::ResourceNotFound(m.clone()),
            CommunicationError::PermissionDenied(m) => CommunicationError::PermissionDenied(m.clone()),
            CommunicationError::IoError(m) => CommunicationError::IoError(m.clone()),
        }
    }
}

/// Says that a server could not start because another holds its lock file.
pub open spec fn is_lock_conflict(e: CommunicationError) -> bool {
    match e {
        CommunicationError::ConnectionFailed(m) => has_substring(
            m@,
            "Server lock file already exists"@,
        ) || has_substring(m@, "AlreadyExists"@),
        _ => false,
    }
}

/// Whether a failed server start means that another server holds the lock file.
pub fn lock_conflict(e: &CommunicationError) -> (r: bool)
    ensures
        r == is_lock_conflict(*e),
{
    match e {
        CommunicationError::ConnectionFailed(m) => contains_text(
            m.as_str(),
            "Server lock file already exists",
        ) || contains_text(m.as_str(), "AlreadyExists"),
        _ => false,
    }
}

} // verus!
