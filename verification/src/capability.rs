//! The capability descriptor: the immutable, negotiated-once declaration of
//! what kind of stream an extension accepts, and the chunk validation that
//! the descriptor induces.

use vstd::prelude::*;
use crate::chunk::{DataChunk, StreamDataType};
use crate::errors::ExtensionError;

verus! {

/// Which side originates chunks.
#[derive(Debug, Clone, Copy, PartialEq, Eq, Structural)]
pub enum StreamDirection {
    Upload,
    Download,
    Bidirectional,
}

/// Whether chunks are processed independently or within a session.
#[derive(Debug, Clone, Copy, PartialEq, Eq, Structural)]
pub enum StreamMode {
    Stateless,
    Stateful,
}

/// Advisory backpressure parameters. Purely advisory: the protocol attaches
/// no obligation to them.
#[derive(Debug, Clone, Copy, PartialEq, Eq, Structural)]
pub struct FlowControl {
    /// A suggested bound on chunks in flight; absent means no suggestion.
    pub window_chunks: Option<u32>,
}

impl Default for FlowControl {
    /// The default flow control carries no suggestion at all.
    fn default() -> (r: FlowControl)
        ensures
            r.window_chunks is None,
    {
        FlowControl { window_chunks: None }
    }
}

/// The negotiated-once description of what kind of stream an extension
/// accepts. Computed once and reused unchanged for the life of the
/// extension instance.
#[derive(Debug, Clone)]
pub struct StreamCapability {
    /// Which side originates chunks.
    pub direction: StreamDirection,
    /// Stateless single-shot processing or stateful sessions.
    pub mode: StreamMode,
    /// The ordered set of payload types the extension accepts; a chunk
    /// whose declared type is not in this set must be rejected.
    pub supported_data_types: Vec<StreamDataType>,
    /// Hard upper bound on a chunk's byte length; exceeding it is a
    /// rejection, never a truncation.
    pub max_chunk_size: usize,
    /// The chunk size the extension works best with; advisory.
    pub preferred_chunk_size: usize,
    /// Upper bound on simultaneously active sessions (stateful mode only).
    pub max_concurrent_sessions: usize,
    /// Advisory backpressure parameters.
    pub flow_control: FlowControl,
}

impl StreamCapability {
    /// A well-formed capability never prefers chunks larger than it accepts.
    pub open spec fn wf(self) -> bool {
        self.preferred_chunk_size <= self.max_chunk_size
    }

    /// The declared type `t` is one of the supported data types.
    pub open spec fn spec_supports(self, t: StreamDataType) -> bool {
        exists|i: int|
            0 <= i < self.supported_data_types@.len() && self.supported_data_types@[i].spec_eq(t)
    }

    /// A chunk passes validation when its payload is within the declared
    /// byte bound and its declared type is supported.
    pub open spec fn spec_chunk_ok(self, chunk: DataChunk) -> bool {
        chunk.data@.len() <= self.max_chunk_size && self.spec_supports(chunk.data_type)
    }

    /// Decides membership of `t` in the supported set.
    pub fn supports(&self, t: &StreamDataType) -> (r: bool)
        ensures
            r == self.spec_supports(*t),
    {
        let mut i: usize = 0;
        while i < self.supported_data_types.len()
            invariant
                0 <= i <= self.supported_data_types@.len(),
                forall|j: int| 0 <= j < i ==> !self.supported_data_types@[j].spec_eq(*t),
            decreases self.supported_data_types@.len() - i,
        {
            if self.supported_data_types[i].same_type(t) {
                return true;
            }
            i = i + 1;
        }
        false
    }

    /// The validation the host performs before handing a chunk to any
    /// processing operation, and that a correct extension repeats
    /// defensively: `Ok` exactly when the chunk is within the byte bound
    /// and of a supported type, and `InvalidStreamData` otherwise.
    pub fn validate_chunk(&self, chunk: &DataChunk) -> (r: Result<(), ExtensionError>)
        ensures
            r is Ok <==> self.spec_chunk_ok(*chunk),
            r matches Err(e) ==> e is InvalidStreamData,
    {
        if chunk.data.len() > self.max_chunk_size {
            return Err(
                ExtensionError::InvalidStreamData(String::from_str("chunk exceeds max_chunk_size")),
            );
        }
        if !self.supports(&chunk.data_type) {
            return Err(
                ExtensionError::InvalidStreamData(String::from_str("unsupported data type")),
            );
        }
        Ok(())
    }
}

} // verus!
