//! Host/extension streaming boundary: a fixed ABI under which a host drives
//! independently compiled extension modules through a synchronous
//! metric/command contract and a chunked streaming contract.
//!
//! The load-bearing pieces are the capability descriptor, the wire-level
//! chunk and result types, the session registry, and the stream engines
//! (stateless single-shot processing and stateful session-scoped
//! processing with the lifecycle Init -> Active -> Closed).

use vstd::prelude::*;

pub mod capability;
pub mod chunk;
pub mod detect;
pub mod config;
pub mod errors;
pub mod json;
pub mod laws;
pub mod lifecycle;
pub mod metadata;
pub mod metrics;
pub mod registry;
pub mod stateful;
pub mod stateless;
pub mod tally;
pub mod template;
pub mod tools;
pub mod trusted;
pub mod weather;

verus! {

/// The single unsigned integer both sides must agree on exactly before any
/// other interaction takes place.
pub const ABI_VERSION: u32 = 2;

/// The mathematical value clamped into `u64`: running counters saturate at
/// the type bound instead of wrapping.
pub open spec fn sat64(x: int) -> u64 {
    if x > u64::MAX {
        u64::MAX
    } else if x < 0 {
        0u64
    } else {
        x as u64
    }
}

/// The mathematical value clamped into `u32`: per-label tallies saturate
/// at the type bound instead of wrapping.
pub open spec fn sat32(x: int) -> u32 {
    if x > u32::MAX {
        u32::MAX
    } else if x < 0 {
        0u32
    } else {
        x as u32
    }
}

/// The mathematical value clamped into the non-negative half of `i64`.
pub open spec fn sat_i64(x: int) -> i64 {
    if x > i64::MAX {
        i64::MAX
    } else if x < 0 {
        0i64
    } else {
        x as i64
    }
}

/// A `u64` clamped into `i64`.
pub fn sat_cast_i64(x: u64) -> (r: i64)
    ensures
        r == sat_i64(x as int),
{
    if x > i64::MAX as u64 {
        i64::MAX
    } else {
        x as i64
    }
}

/// A host accepts an extension only when the two ABI versions agree exactly;
/// any mismatch means the extension must not be loaded at all.
pub fn abi_compatible(host: u32, extension: u32) -> (r: bool)
    ensures
        r == (host == extension),
{
    host == extension
}

/// The load-time handshake: `Ok` exactly when the extension reports the
/// host's own ABI version; otherwise the fatal mismatch error, carrying
/// both numbers.
pub fn host_abi_check(extension_version: u32) -> (r: Result<(), errors::ExtensionError>)
    ensures
        extension_version == ABI_VERSION <==> r is Ok,
        r matches Err(e) ==> e matches errors::ExtensionError::AbiVersionMismatch {
            host,
            extension,
        } && host == ABI_VERSION && extension == extension_version,
{
    if extension_version == ABI_VERSION {
        Ok(())
    } else {
        Err(errors::ExtensionError::AbiVersionMismatch {
            host: ABI_VERSION,
            extension: extension_version,
        })
    }
}

} // verus!
