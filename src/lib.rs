//! Binary protocol of a Bluetooth Low Energy thermometer / hygrometer:
//! command frames, decoders for the three response shapes, and the paging
//! plan that turns the size of the device's history into fetch offsets.
use vstd::prelude::*;

pub mod decode;
pub mod dump;
pub mod duration;
pub mod frame;
pub mod gatt;
pub mod plan;

verus! {

/// Status byte that opens every successful response.
pub const RESPONSE_OK: u8 = 1;

} // verus!
