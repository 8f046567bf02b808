//! A fixed-cadence frame stream: a pacer produces timestamped RGB frames at a
//! constant interval, hands each one to a single consumer through a rendezvous
//! channel that drops frames when nobody is waiting, and a small server
//! answers path-addressed requests with CBOR-encoded replies.
use vstd::prelude::*;

pub mod codec;
pub mod frame;
pub mod handoff;
pub mod handoff_model;
pub mod pacer;
pub mod server;

verus! {

/// Default frame width in pixels.
pub const FRAME_WIDTH: u32 = 1920;

/// Default frame height in pixels.
pub const FRAME_HEIGHT: u32 = 1080;

/// Default pacing interval in milliseconds (30 frames per second).
pub const INTERVAL_MS: u64 = 1000 / 30;

} // verus!
