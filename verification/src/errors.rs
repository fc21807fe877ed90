//! Error taxonomy for the extension streaming protocol.
//!
//! Every variant carries enough context (session id, command name, or a
//! description of the offending chunk) to correlate the error with the
//! triggering input.

use vstd::prelude::*;

verus! {

/// Errors surfaced across the host/extension boundary.
#[derive(Debug, Clone, PartialEq, Eq)]
pub enum ExtensionError {
    /// A chunk failed type/size validation, or its payload was unusable
    /// for the declared type. Local to one chunk: the stream continues.
    InvalidStreamData(String),
    /// The session identifier is absent from the registry (or was closed).
    SessionNotFound(String),
    /// A session with this identifier is already registered.
    SessionAlreadyExists(String),
    /// The bound on simultaneously active sessions was reached.
    CapacityExceeded(String),
    /// An administrative command with this name does not exist.
    CommandNotFound(String),
    /// A command was invoked with arguments it cannot accept.
    InvalidArguments(String),
    /// A tool call was given unusable input.
    InvalidInput(String),
    /// A tool with this name does not exist.
    ToolNotFound(String),
    /// Host and extension disagree on the ABI version; fatal at load time.
    AbiVersionMismatch { host: u32, extension: u32 },
}

impl ExtensionError {
    /// The context string carried by the error, or the empty string for
    /// the version mismatch variant (whose context is the two numbers).
    pub fn context(&self) -> (r: String)
        ensures
            match self {
                ExtensionError::InvalidStreamData(s) => r@ == s@,
                ExtensionError::SessionNotFound(s) => r@ == s@,
                ExtensionError::SessionAlreadyExists(s) => r@ == s@,
                ExtensionError::CapacityExceeded(s) => r@ == s@,
                ExtensionError::CommandNotFound(s) => r@ == s@,
                ExtensionError::InvalidArguments(s) => r@ == s@,
                ExtensionError::InvalidInput(s) => r@ == s@,
                ExtensionError::ToolNotFound(s) => r@ == s@,
                ExtensionError::AbiVersionMismatch { .. } => r@ == Seq::<char>::empty(),
            },
    {
        match self {
            ExtensionError::InvalidStreamData(s) => s.clone(),
            ExtensionError::SessionNotFound(s) => s.clone(),
            ExtensionError::SessionAlreadyExists(s) => s.clone(),
            ExtensionError::CapacityExceeded(s) => s.clone(),
            ExtensionError::CommandNotFound(s) => s.clone(),
            ExtensionError::InvalidArguments(s) => s.clone(),
            ExtensionError::InvalidInput(s) => s.clone(),
            ExtensionError::ToolNotFound(s) => s.clone(),
            ExtensionError::AbiVersionMismatch { .. } => String::new(),
        }
    }
}

} // verus!
