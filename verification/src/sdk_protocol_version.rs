//! The protocol version this library speaks.
use vstd::prelude::*;

verus! {

/// Protocol version this library speaks; the server must report the same.
pub const SDK_PROTOCOL_VERSION: i32 = 1;

/// The protocol version this library speaks.
pub fn get_sdk_protocol_version() -> (v: i32)
    ensures
        v == SDK_PROTOCOL_VERSION,
{
    SDK_PROTOCOL_VERSION
}

} // verus!
