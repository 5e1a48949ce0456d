//! Capability flags for the decoder back-ends the engine can load, and the
//! outcome of a multi-flag initialisation request.

use vstd::prelude::*;
use vstd::string::StringExecFns;

verus! {

/// FLAC decoder support.
pub const INIT_FLAC: u32 = 0x1;
/// MOD decoder support.
pub const INIT_MOD: u32 = 0x2;
/// MODPlug decoder support.
pub const INIT_MODPLUG: u32 = 0x4;
/// MP3 decoder support.
pub const INIT_MP3: u32 = 0x8;
/// OGG decoder support.
pub const INIT_OGG: u32 = 0x10;
/// FluidSynth decoder support.
pub const INIT_FLUIDSYNTH: u32 = 0x20;

/// A set of decoder capabilities, one bit per back-end.
#[derive(Clone, Copy, Debug, PartialEq, Eq, Structural)]
pub struct InitFlag(pub u32);

impl InitFlag {
    /// Whether every capability of `other` is also in `self`.
    pub open spec fn spec_contains(self, other: InitFlag) -> bool {
        self.0 & other.0 == other.0
    }

    /// The raw bit pattern.
    pub fn bits(self) -> (r: u32)
        ensures
            r == self.0,
    {
        self.0
    }

    /// Whether every capability of `other` is also in `self`.
    pub fn contains(self, other: InitFlag) -> (r: bool)
        ensures
            r == self.spec_contains(other),
    {
        self.0 & other.0 == other.0
    }

    /// Whether `self` and `other` share at least one capability.
    pub fn intersects(self, other: InitFlag) -> (r: bool)
        ensures
            r == (self.0 & other.0 != 0),
    {
        self.0 & other.0 != 0
    }

    /// The capabilities in either set.
    pub fn union(self, other: InitFlag) -> (r: InitFlag)
        ensures
            r.0 == self.0 | other.0,
    {
        InitFlag(self.0 | other.0)
    }

    /// The capabilities of `self` that are not in `other`.
    pub fn difference(self, other: InitFlag) -> (r: InitFlag)
        ensures
            r.0 == self.0 & !other.0,
    {
        InitFlag(self.0 & !other.0)
    }

    /// Whether no capability is set.
    pub fn is_empty(self) -> (r: bool)
        ensures
            r == (self.0 == 0),
    {
        self.0 == 0
    }

    /// The text `to_string` produces: one space-terminated name per
    /// capability present, in a fixed order.
    pub open spec fn spec_name_string(self) -> Seq<char> {
        (if self.spec_contains(InitFlag(INIT_FLAC)) {
            "INIT_FLAC "@
        } else {
            Seq::<char>::empty()
        }) + (if self.spec_contains(InitFlag(INIT_MOD)) {
            "INIT_MOD "@
        } else {
            Seq::<char>::empty()
        }) + (if self.spec_contains(InitFlag(INIT_MODPLUG)) {
            "INIT_MODPLUG "@
        } else {
            Seq::<char>::empty()
        }) + (if self.spec_contains(InitFlag(INIT_MP3)) {
            "INIT_MP3 "@
        } else {
            Seq::<char>::empty()
        }) + (if self.spec_contains(InitFlag(INIT_OGG)) {
            "INIT_OGG "@
        } else {
            Seq::<char>::empty()
        }) + (if self.spec_contains(InitFlag(INIT_FLUIDSYNTH)) {
            "INIT_FLUIDSYNTH "@
        } else {
            Seq::<char>::empty()
        })
    }

    /// Lists the capabilities in the set by name, each followed by a space.
    pub fn to_string(&self) -> (r: String)
        ensures
            r@ == self.spec_name_string(),
    {
        let mut s = String::new();
        if self.contains(InitFlag(INIT_FLAC)) {
            s.append("INIT_FLAC ");
        }
        if self.contains(InitFlag(INIT_MOD)) {
            s.append("INIT_MOD ");
        }
        if self.contains(InitFlag(INIT_MODPLUG)) {
            s.append("INIT_MODPLUG ");
        }
        if self.contains(InitFlag(INIT_MP3)) {
            s.append("INIT_MP3 ");
        }
        if self.contains(InitFlag(INIT_OGG)) {
            s.append("INIT_OGG ");
        }
        if self.contains(InitFlag(INIT_FLUIDSYNTH)) {
            s.append("INIT_FLUIDSYNTH ");
        }
        s
    }
}

/// Witness that the engine's dynamic decoder libraries are loaded; the
/// unverified shell quits the engine when it drops the witness.
pub struct Sdl2MixerContext;

/// Decides what a capability-initialisation request returns, given the set
/// that was requested and the set the engine reports as loaded.
///
/// The request succeeds exactly when every requested capability was loaded.
/// On failure the engine's own error text is reported; when the engine left
/// that text empty, a message naming the missing capabilities is synthesized
/// instead.
pub fn init_outcome(requested: InitFlag, returned: InitFlag, engine_error: String) -> (r: Result<
    Sdl2MixerContext,
    String,
>)
    ensures
        r is Ok <==> returned.spec_contains(requested),
        !returned.spec_contains(requested) && engine_error@.len() > 0 ==> (r matches Err(m)
            && m@ == engine_error@),
        !returned.spec_contains(requested) && engine_error@.len() == 0 ==> (r matches Err(m)
            && m@ == "Could not init: "@ + InitFlag(requested.0 & !returned.0).spec_name_string()),
{
    if returned.contains(requested) {
        Ok(Sdl2MixerContext)
    } else if !engine_error.as_str().is_empty() {
        Err(engine_error)
    } else {
        let missing = requested.difference(returned);
        let text = String::from_str("Could not init: ").concat(missing.to_string().as_str());
        Err(text)
    }
}

} // verus!
