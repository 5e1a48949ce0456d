//! Sample-chunk wrappers: native-handle ownership and chunk volume.

use vstd::prelude::*;

verus! {

/// A sample chunk: the engine-side handle (zero is the null handle), this
/// wrapper's ownership flag, and the chunk's own volume setting.
///
/// Exactly the owning wrapper frees the handle on destruction; wrappers
/// obtained by querying what a channel last played are borrowed views.
#[derive(Debug, PartialEq, Eq, Structural)]
pub struct Chunk {
    /// The engine's handle for the loaded sample data.
    pub raw: u64,
    /// Whether destruction of this wrapper must free the handle.
    pub owned: bool,
    /// The chunk's volume, applied whenever it is played.
    pub volume: i32,
}

/// No handle has two owning wrappers: the double-free guard.
pub open spec fn unique_owners(s: Seq<Chunk>) -> bool {
    forall|i: int, j: int|
        0 <= i < s.len() && 0 <= j < s.len() && i != j && (#[trigger] s[i]).owned && (
        #[trigger] s[j]).owned ==> s[i].raw != s[j].raw
}

/// Law: a borrowed (non-owning) view never breaks the one-owner guarantee,
/// whatever wrappers already exist.
pub proof fn lemma_view_keeps_unique_owners(s: Seq<Chunk>, c: Chunk)
    requires
        unique_owners(s),
        !c.owned,
    ensures
        unique_owners(s.push(c)),
{
}

impl Chunk {
    /// Wrapper volume stays on the engine's zero-to-maximum scale.
    pub open spec fn wf(self) -> bool {
        0 <= self.volume <= 128
    }

    /// Decides what loading a sample returns, given the handle the engine
    /// produced: the null handle reports the engine's error text; any other
    /// handle becomes an owned wrapper at full volume.
    pub fn from_loaded(raw: u64, engine_error: String) -> (r: Result<Chunk, String>)
        ensures
            r is Ok <==> raw != 0,
            raw != 0 ==> (r matches Ok(c) && c.raw == raw && c.owned && c.volume == 128),
            raw == 0 ==> (r matches Err(m) && m@ == engine_error@),
    {
        if raw == 0 {
            Err(engine_error)
        } else {
            Ok(Chunk { raw, owned: true, volume: 128 })
        }
    }

    /// Wraps the engine's answer to a "most recently played chunk" query:
    /// the null handle means none, and any other handle becomes a borrowed
    /// view that must not free it.
    pub fn from_query(raw: u64) -> (r: Option<Chunk>)
        ensures
            r is Some <==> raw != 0,
            raw != 0 ==> (r matches Some(c) && c.raw == raw && !c.owned && c.volume == 128),
    {
        if raw == 0 {
            None
        } else {
            Some(Chunk { raw, owned: false, volume: 128 })
        }
    }

    /// Sets the chunk's volume and returns the previous setting. A negative
    /// argument only queries; a value above the maximum is clamped to it.
    pub fn set_volume(&mut self, volume: i32) -> (prev: i32)
        requires
            old(self).wf(),
        ensures
            final(self).wf(),
            prev == old(self).volume,
            final(self).raw == old(self).raw,
            final(self).owned == old(self).owned,
            volume < 0 ==> final(self).volume == old(self).volume,
            0 <= volume <= 128 ==> final(self).volume == volume,
            volume > 128 ==> final(self).volume == 128,
    {
        let prev = self.volume;
        if volume >= 0 {
            if volume > 128 {
                self.volume = 128;
            } else {
                self.volume = volume;
            }
        }
        prev
    }

    /// The chunk's current volume.
    pub fn get_volume(&self) -> (r: i32)
        ensures
            r == self.volume,
    {
        self.volume
    }

    /// The destruction decision: the native handle is freed exactly when
    /// this wrapper owns it.
    pub fn should_free(&self) -> (r: bool)
        ensures
            r == self.owned,
    {
        self.owned
    }
}

} // verus!
