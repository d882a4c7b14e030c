//! Client-side engine for the HID++ 2.0 feature-access protocol: binary
//! report framing, request/response correlation, and the feature-layer
//! decoders built on top of them.

pub mod chan;
pub mod context;
pub mod error;
pub mod features;
pub mod hiddev;
pub mod receiver;
pub mod report;
pub mod reportcollector;
pub mod sender;
pub mod shared;
pub mod strfmt;
pub mod wait;

use vstd::prelude::*;

verus! {

} // verus!
