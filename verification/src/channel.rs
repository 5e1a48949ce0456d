//! Playback-slot handles and fade state.

use vstd::prelude::*;

verus! {

/// The fade state of a channel or of the music stream.
#[derive(Debug, Copy, Clone, PartialEq, Eq, Structural, Hash)]
pub enum Fading {
    /// Playing steadily (or not at all).
    NoFading,
    /// Volume ramping down towards a halt.
    FadingOut,
    /// Volume ramping up from silence.
    FadingIn,
}

/// The fade state the engine's raw answer denotes: one for fading out, two
/// for fading in, anything else for no fading.
pub open spec fn spec_fading_from_raw(raw: u32) -> Fading {
    if raw == 1 {
        Fading::FadingOut
    } else if raw == 2 {
        Fading::FadingIn
    } else {
        Fading::NoFading
    }
}

/// Maps the engine's raw fade-state answer to its meaning.
pub fn fading_from_raw(raw: u32) -> (f: Fading)
    ensures
        f == spec_fading_from_raw(raw),
{
    if raw == 1 {
        Fading::FadingOut
    } else if raw == 2 {
        Fading::FadingIn
    } else {
        Fading::NoFading
    }
}

/// A sound-effect playback slot. Values at or above zero name one concrete
/// slot; minus one addresses all channels at once; minus two is the
/// post-processing pseudo-channel. The handle owns no resource.
#[derive(Debug, Copy, Clone, PartialEq, Eq, Structural)]
pub struct Channel(pub i32);

/// Returns the handle for playback slot `chan`.
pub fn channel(chan: i32) -> (r: Channel)
    ensures
        r.0 == chan,
{
    Channel(chan)
}

impl Channel {
    /// The broadcast handle addressing all channels.
    pub fn all() -> (r: Channel)
        ensures
            r.0 == -1,
    {
        Channel(-1)
    }

    /// The post-processing pseudo-channel.
    pub fn post() -> (r: Channel)
        ensures
            r.0 == -2,
    {
        Channel(-2)
    }
}

} // verus!
