//! Wire-level units of the streaming contract: the typed data chunk sent by
//! a producer and the typed result emitted per processing step.

use vstd::prelude::*;

verus! {

/// The declared type of a chunk or result payload.
#[derive(Debug, Clone)]
pub enum StreamDataType {
    /// A still image in the named container format (for example "jpeg").
    Image { format: String },
    /// Encoded video with its codec and nominal geometry.
    Video { codec: String, width: u32, height: u32, fps: u32 },
    /// An opaque byte payload.
    Binary,
    /// A payload that is a valid JSON document.
    Json,
}

impl StreamDataType {
    /// Two declared types are the same when they are the same variant with
    /// equal fields; string fields are compared by their character content.
    pub open spec fn spec_eq(self, other: StreamDataType) -> bool {
        match (self, other) {
            (StreamDataType::Image { format: f1 }, StreamDataType::Image { format: f2 }) => f1@
                == f2@,
            (
                StreamDataType::Video { codec: c1, width: w1, height: h1, fps: p1 },
                StreamDataType::Video { codec: c2, width: w2, height: h2, fps: p2 },
            ) => c1@ == c2@ && w1 == w2 && h1 == h2 && p1 == p2,
            (StreamDataType::Binary, StreamDataType::Binary) => true,
            (StreamDataType::Json, StreamDataType::Json) => true,
            _ => false,
        }
    }

    /// Decides `spec_eq` at run time.
    pub fn same_type(&self, other: &StreamDataType) -> (r: bool)
        ensures
            r == self.spec_eq(*other),
    {
        match (self, other) {
            (StreamDataType::Image { format: f1 }, StreamDataType::Image { format: f2 }) => f1.eq(
                f2,
            ),
            (
                StreamDataType::Video { codec: c1, width: w1, height: h1, fps: p1 },
                StreamDataType::Video { codec: c2, width: w2, height: h2, fps: p2 },
            ) => c1.eq(c2) && w1 == w2 && h1 == h2 && p1 == p2,
            (StreamDataType::Binary, StreamDataType::Binary) => true,
            (StreamDataType::Json, StreamDataType::Json) => true,
            _ => false,
        }
    }
}

/// One unit of input data: a producer-assigned sequence number, an opaque
/// byte payload, and the declared payload type. A chunk is consumed exactly
/// once by the processing call it is handed to; the engine copies out
/// anything it needs to keep.
#[derive(Debug, Clone)]
pub struct DataChunk {
    /// Monotonically increasing counter, unique within one stream or
    /// session, assigned by the producer.
    pub sequence: u64,
    /// The payload bytes; length is bounded by the negotiated
    /// `max_chunk_size`.
    pub data: Vec<u8>,
    /// The declared type of `data`; must be one of the capability's
    /// supported types.
    pub data_type: StreamDataType,
}

/// The typed result of processing one chunk (or a synthetic aggregate).
#[derive(Debug, Clone)]
pub struct StreamResult {
    /// The chunk sequence this result responds to; absent for synthetic
    /// results.
    pub input_sequence: Option<u64>,
    /// Sequence assigned to this result in the output stream: equal to the
    /// input sequence for stateless 1:1 processing, and the session-local
    /// frame counter for stateful processing.
    pub output_sequence: u64,
    /// The output payload.
    pub data: Vec<u8>,
    /// The declared type of `data`.
    pub data_type: StreamDataType,
    /// Wall-clock cost of producing this result, in milliseconds.
    pub processing_ms: u64,
    /// A terminal-for-this-chunk error description; its presence does not
    /// close the session.
    pub error: Option<String>,
}

} // verus!
