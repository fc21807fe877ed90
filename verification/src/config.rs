//! Session configuration for the stateful video engine, and its assembly
//! from a JSON payload.
//!
//! A malformed or missing configuration payload falls back, field by
//! field, to the documented default; it never fails the session. The
//! outcome is pinned exactly: `spec_video_config_of` says which
//! configuration any byte payload yields, in terms of the named JSON
//! extractions of the trusted boundary.

use vstd::prelude::*;
use crate::trusted;

verus! {

/// The string under `key` in the document, as the document determines
/// it.
pub open spec fn spec_string_field(v: serde_json::Value, key: Seq<char>) -> Option<Seq<char>> {
    match trusted::spec_field(v, key) {
        Some(f) => trusted::spec_as_string(f),
        None => None,
    }
}

/// The unsigned integer under `key` in the document.
pub open spec fn spec_u64_field(v: serde_json::Value, key: Seq<char>) -> Option<u64> {
    match trusted::spec_field(v, key) {
        Some(f) => trusted::spec_as_u64(f),
        None => None,
    }
}

/// The signed integer under `key` in the document.
pub open spec fn spec_i64_field(v: serde_json::Value, key: Seq<char>) -> Option<i64> {
    match trusted::spec_field(v, key) {
        Some(f) => trusted::spec_as_i64(f),
        None => None,
    }
}

/// The boolean under `key` in the document.
pub open spec fn spec_bool_field(v: serde_json::Value, key: Seq<char>) -> Option<bool> {
    match trusted::spec_field(v, key) {
        Some(f) => trusted::spec_as_bool(f),
        None => None,
    }
}

/// The string under `key`, or the default where the document has none.
pub open spec fn spec_string_or(v: serde_json::Value, key: Seq<char>, default: Seq<char>) -> Seq<
    char,
> {
    match spec_string_field(v, key) {
        Some(s) => s,
        None => default,
    }
}

/// The signed integer under `key`, or the default where the document has
/// none.
pub open spec fn spec_i64_or(v: serde_json::Value, key: Seq<char>, default: i64) -> i64 {
    match spec_i64_field(v, key) {
        Some(x) => x,
        None => default,
    }
}

/// The boolean under `key`, or the default where the document has none.
pub open spec fn spec_bool_or(v: serde_json::Value, key: Seq<char>, default: bool) -> bool {
    match spec_bool_field(v, key) {
        Some(b) => b,
        None => default,
    }
}

/// A day count read from `key` (defaulting when absent), clamped into
/// `[0, max]`.
pub open spec fn spec_clamped_days(v: Option<i64>, default: int, max: int) -> int {
    let d = (match v {
        Some(x) => x as int,
        None => default,
    });
    if d < 0 {
        0
    } else if d > max {
        max
    } else {
        d
    }
}

/// The non-negative signed integer under `key`, or the default where the
/// document has none or a negative one.
pub open spec fn spec_nonneg_i64_or(v: serde_json::Value, key: Seq<char>, default: u64) -> u64 {
    match spec_i64_field(v, key) {
        Some(x) => if x >= 0 {
            x as u64
        } else {
            default
        },
        None => default,
    }
}

/// Per-session configuration of the stateful video engine. The confidence
/// threshold is in hundredths.
#[derive(Debug, Clone, Copy, PartialEq, Eq, Structural)]
pub struct VideoConfig {
    pub confidence_centi: u32,
    pub max_objects: u32,
    pub target_fps: u32,
    pub enable_tracking: bool,
}

impl Default for VideoConfig {
    /// The documented fallback: everything zero and tracking off.
    fn default() -> (r: VideoConfig)
        ensures
            r == VideoConfig::spec_default(),
    {
        VideoConfig { confidence_centi: 0, max_objects: 0, target_fps: 0, enable_tracking: false }
    }
}

impl VideoConfig {
    /// The documented fallback configuration.
    pub open spec fn spec_default() -> VideoConfig {
        VideoConfig { confidence_centi: 0, max_objects: 0, target_fps: 0, enable_tracking: false }
    }

    /// The configuration the document yields, field by field.
    pub open spec fn spec_of_document(v: serde_json::Value) -> VideoConfig {
        VideoConfig {
            confidence_centi: spec_take_u32(spec_u64_field(v, "confidence_centi"@)),
            max_objects: spec_take_u32(spec_u64_field(v, "max_objects"@)),
            target_fps: spec_take_u32(spec_u64_field(v, "target_fps"@)),
            enable_tracking: spec_take_bool(spec_bool_field(v, "enable_tracking"@)),
        }
    }

    /// The configuration a byte payload yields: the fields of the parsed
    /// document, or the fallback when the bytes are not a JSON document.
    pub open spec fn spec_of_bytes(bytes: Seq<u8>) -> VideoConfig {
        match trusted::spec_parsed(bytes) {
            Some(doc) => VideoConfig::spec_of_document(doc),
            None => VideoConfig::spec_default(),
        }
    }

    /// Assembles a configuration from whatever fields the payload
    /// yielded: a numeric field is taken exactly when it is present and
    /// fits its target type, and falls back to the default otherwise.
    pub fn assemble(
        confidence_centi: Option<u64>,
        max_objects: Option<u64>,
        target_fps: Option<u64>,
        enable_tracking: Option<bool>,
    ) -> (r: VideoConfig)
        ensures
            r.confidence_centi == spec_take_u32(confidence_centi),
            r.max_objects == spec_take_u32(max_objects),
            r.target_fps == spec_take_u32(target_fps),
            r.enable_tracking == spec_take_bool(enable_tracking),
    {
        VideoConfig {
            confidence_centi: take_u32(confidence_centi),
            max_objects: take_u32(max_objects),
            target_fps: take_u32(target_fps),
            enable_tracking: match enable_tracking {
                Some(b) => b,
                None => false,
            },
        }
    }

    /// Reads a configuration out of a JSON payload: absent, unparsable or
    /// ill-typed fields fall back to the default, field by field.
    pub fn from_json_bytes(bytes: &[u8]) -> (r: VideoConfig)
        ensures
            r == VideoConfig::spec_of_bytes(bytes@),
    {
        let parsed = trusted::json_parse(bytes);
        match parsed {
            None => VideoConfig::assemble(None, None, None, None),
            Some(v) => {
                let confidence = read_u64_field(&v, "confidence_centi");
                let max_objects = read_u64_field(&v, "max_objects");
                let target_fps = read_u64_field(&v, "target_fps");
                let tracking = read_bool_field(&v, "enable_tracking");
                VideoConfig::assemble(confidence, max_objects, target_fps, tracking)
            },
        }
    }
}

/// A present `u64` that fits `u32`; zero otherwise.
pub open spec fn spec_take_u32(v: Option<u64>) -> u32 {
    match v {
        Some(x) => if x <= u32::MAX {
            x as u32
        } else {
            0u32
        },
        None => 0u32,
    }
}

/// A present boolean; false otherwise.
pub open spec fn spec_take_bool(v: Option<bool>) -> bool {
    match v {
        Some(b) => b,
        None => false,
    }
}

/// A `u64` taken when present and small enough for `u32`, zero otherwise.
fn take_u32(v: Option<u64>) -> (r: u32)
    ensures
        r == spec_take_u32(v),
{
    match v {
        Some(x) => if x <= u32::MAX as u64 {
            x as u32
        } else {
            0
        },
        None => 0,
    }
}

/// The unsigned integer under `key`, if the document has one there.
pub fn read_u64_field(v: &serde_json::Value, key: &str) -> (r: Option<u64>)
    ensures
        r == spec_u64_field(*v, key@),
{
    match trusted::json_get(v, key) {
        Some(f) => trusted::json_as_u64(f),
        None => None,
    }
}

/// The signed integer under `key`, if the document has one there.
pub fn read_i64_field(v: &serde_json::Value, key: &str) -> (r: Option<i64>)
    ensures
        r == spec_i64_field(*v, key@),
{
    match trusted::json_get(v, key) {
        Some(f) => trusted::json_as_i64(f),
        None => None,
    }
}

/// The boolean under `key`, if the document has one there.
pub fn read_bool_field(v: &serde_json::Value, key: &str) -> (r: Option<bool>)
    ensures
        r == spec_bool_field(*v, key@),
{
    match trusted::json_get(v, key) {
        Some(f) => trusted::json_as_bool(f),
        None => None,
    }
}

/// The string under `key`, if the document has one there.
pub fn read_string_field(v: &serde_json::Value, key: &str) -> (r: Option<String>)
    ensures
        r matches Some(s) ==> spec_string_field(*v, key@) == Some(s@),
        r is None ==> spec_string_field(*v, key@) is None,
{
    match trusted::json_get(v, key) {
        Some(f) => trusted::json_as_string(f),
        None => None,
    }
}

} // verus!
