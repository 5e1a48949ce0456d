//! Single-slot, process-wide completion hooks: the callback the engine
//! invokes when channel playback or music playback halts.
//!
//! The slot is written only by the application thread and read only by the
//! engine's realtime thread; the invariant below is what makes that safe.

use vstd::prelude::*;

verus! {

/// A replaceable single-entry callback slot together with whether the
/// engine currently routes completion events to its trampoline.
pub struct HookSlot<F> {
    /// Whether the engine has been told to invoke the trampoline.
    pub routed: bool,
    /// The installed callback, if any.
    pub callback: Option<F>,
}

/// The slot after installing `f`: the previous callback is simply
/// discarded and the engine routes events to the trampoline.
pub open spec fn spec_set<F>(s: HookSlot<F>, f: F) -> HookSlot<F> {
    HookSlot { routed: true, callback: Some(f) }
}

/// The slot after clearing: empty, with the engine no longer routing.
pub open spec fn spec_unset<F>(s: HookSlot<F>) -> HookSlot<F> {
    HookSlot { routed: false, callback: None }
}

impl<F> HookSlot<F> {
    /// Slot safety: whenever the engine routes events to the trampoline, a
    /// callback is installed, so a routed read never finds a cleared slot.
    pub open spec fn wf(self) -> bool {
        self.routed ==> self.callback is Some
    }

    /// What an engine-side completion event invokes in this state: the
    /// installed callback while routed, nothing otherwise.
    pub open spec fn spec_fires(self) -> Option<F> {
        if self.routed {
            self.callback
        } else {
            None
        }
    }

    /// The initial, empty slot: nothing installed, engine not routing.
    pub fn new() -> (r: HookSlot<F>)
        ensures
            r.wf(),
            !r.routed,
            r.callback is None,
            r.spec_fires() is None,
    {
        HookSlot { routed: false, callback: None }
    }

    /// Installs `f`, replacing whatever was installed before. The slot is
    /// written first and the engine routed second, so at no point is the
    /// engine routed towards an empty slot.
    pub fn set(&mut self, f: F)
        requires
            old(self).wf(),
        ensures
            final(self).wf(),
            *final(self) == spec_set(*old(self), f),
            final(self).spec_fires() == Some(f),
    {
        self.callback = Some(f);
        self.routed = true;
    }

    /// Clears the slot. The engine is told to stop routing first and the
    /// callback is cleared second — in that order, so no completion event
    /// can race with the clearing and read an empty slot while routed.
    pub fn unset(&mut self)
        requires
            old(self).wf(),
        ensures
            final(self).wf(),
            *final(self) == spec_unset(*old(self)),
            final(self).spec_fires() is None,
    {
        self.routed = false;
        self.callback = None;
    }

    /// The completion trampoline's read: the callback a halt event invokes
    /// now. An empty slot is a no-op, never an error.
    pub fn fire(&self) -> (r: Option<&F>)
        ensures
            r matches Some(f) ==> self.spec_fires() == Some(*f),
            r is None ==> self.spec_fires() is None,
    {
        if self.routed {
            match &self.callback {
                Some(f) => Some(f),
                None => None,
            }
        } else {
            None
        }
    }
}

/// Law: the slot always dispatches to the latest installed callback — after
/// installing `f` and then `g`, an engine trigger invokes `g` and never `f`
/// — and after an unset it dispatches to nothing at all.
pub proof fn lemma_hook_latest_wins<F>(s: HookSlot<F>, f: F, g: F)
    ensures
        spec_set(spec_set(s, f), g).spec_fires() == Some(g),
        spec_unset(spec_set(s, f)).spec_fires() is None,
{
}

} // verus!
