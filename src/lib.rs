//! End-to-end validation of a device-management platform: the realtime
//! channel protocol, the telemetry value codec and the validation flow.
use vstd::prelude::*;

pub mod api;
pub mod blob;
pub mod codec;
pub mod datastream;
pub mod double;
pub mod event;
pub mod interfaces;
pub mod phoenix_channel;
pub mod retry;
pub mod telemetry;
pub mod text;
pub mod timestamp;
pub mod wire;

verus! {

/// Adds two counters.
pub fn add(left: u64, right: u64) -> (r: u64)
    requires
        left + right <= u64::MAX,
    ensures
        r == left + right,
{
    left + right
}

} // verus!
