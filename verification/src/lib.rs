//! Channel-based audio mixing, modelled for verification.
//!
//! The authoritative mixing, decoding and fading work happens in a native
//! engine on its own realtime thread; this crate captures everything the
//! binding layer itself decides — capability-flag checking, effect
//! registration lifecycles, hook-slot replacement, group membership,
//! spatial-effect state and buffer reslicing — as verified functions over
//! plain values, so a thin unverified shell can drive the engine with them.

use vstd::prelude::*;

pub mod channel;
pub mod chunk;
pub mod effects;
pub mod engine;
pub mod flags;
pub mod format;
pub mod group;
pub mod hooks;
pub mod music;

verus! {

/// Maximum value for any volume setting.
pub const MAX_VOLUME: i32 = 128;

/// Default number of output channels: stereo.
pub const DEFAULT_CHANNELS: i32 = 2;

/// Good default sample rate in Hz for PC sound cards.
pub const DEFAULT_FREQUENCY: i32 = 22050;

} // verus!
