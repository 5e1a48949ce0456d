//! The effect-registration subsystem: caller-supplied per-channel audio
//! transforms, the lifecycle that ties each registration to exactly one
//! removal, and the reslicing of raw byte buffers into typed samples.
//!
//! The engine invokes two trampolines for every registration: a per-buffer
//! one on each mixing tick while the registration is active, and a removal
//! one when the channel halts, is reused, or the caller unregisters. The
//! registry below is the verified model of that bookkeeping: the unverified
//! shell relays each engine event (`mix_tick`, `remove_all`) to it.

use vstd::prelude::*;
use vstd::string::StringExecFns;
use crate::channel::Channel;

verus! {

/// A caller-supplied audio transform, invoked by the engine's realtime
/// thread once per mixing tick with the channel's current buffer.
///
/// The transform mutates the buffer in place and must hand it back with the
/// same length; what the engine mixes next is the mutated contents. It must
/// not retain the buffer past the call.
pub trait EffectCallback: Send {
    /// The sample element type the transform processes.
    type SampleType;

    /// Processes one mixing buffer in place.
    fn callback(&mut self, buffer: &mut Vec<Self::SampleType>)
        ensures
            final(buffer)@.len() == old(buffer)@.len(),
    ;
}

/// One registration: the owned transform plus its lifecycle bookkeeping.
///
/// Ownership of the transform passes to the registry at registration and is
/// reclaimed only by the removal event; a removed slot keeps the record (and
/// the spent transform) so that the lifecycle stays visible.
pub struct EffectSlot<CB: EffectCallback> {
    /// The transform, exclusively owned by the registry.
    pub transform: CB,
    /// Whether the registration is still attached to the channel.
    pub active: bool,
    /// How many buffer ticks the per-buffer trampoline has processed.
    pub ticks: Ghost<nat>,
    /// How many times the removal trampoline has run for this slot.
    pub removals: Ghost<nat>,
}

/// The registry of effects attached to one playback channel.
pub struct ChannelEffects<CB: EffectCallback> {
    /// All registrations made so far, in registration order.
    pub slots: Vec<EffectSlot<CB>>,
}

/// The lifecycle-relevant view of a registry: for each registration in
/// order, whether it is active, its buffer-tick count, and its removal count.
pub open spec fn life<CB: EffectCallback>(h: ChannelEffects<CB>) -> Seq<(bool, nat, nat)> {
    Seq::new(
        h.slots@.len(),
        |i: int| (h.slots@[i].active, h.slots@[i].ticks@, h.slots@[i].removals@),
    )
}

/// Lifecycle invariant: the removal trampoline has run at most once per
/// registration, and exactly once for the ones no longer active.
pub open spec fn life_wf(s: Seq<(bool, nat, nat)>) -> bool {
    forall|i: int|
        0 <= i < s.len() ==> ((#[trigger] s[i]).2 <= 1 && (s[i].0 <==> s[i].2 == 0))
}

/// Lifecycle effect of registering a new transform.
pub open spec fn spec_register_life(s: Seq<(bool, nat, nat)>) -> Seq<(bool, nat, nat)> {
    s.push((true, 0nat, 0nat))
}

/// Lifecycle effect of one mixing tick: every active registration processes
/// the buffer once; removed ones are never invoked again.
pub open spec fn spec_tick_life(s: Seq<(bool, nat, nat)>) -> Seq<(bool, nat, nat)> {
    Seq::new(
        s.len(),
        |i: int|
            if s[i].0 {
                (true, (s[i].1 + 1) as nat, s[i].2)
            } else {
                s[i]
            },
    )
}

/// Lifecycle effect of a removal event (explicit unregistration, channel
/// halt, or channel reuse): the removal trampoline runs once for every
/// registration still active, and not at all for already-removed ones.
pub open spec fn spec_remove_all_life(s: Seq<(bool, nat, nat)>) -> Seq<(bool, nat, nat)> {
    Seq::new(
        s.len(),
        |i: int|
            if s[i].0 {
                (false, s[i].1, (s[i].2 + 1) as nat)
            } else {
                s[i]
            },
    )
}

/// The number of registrations still active.
pub open spec fn count_active(s: Seq<(bool, nat, nat)>) -> nat
    decreases s.len(),
{
    if s.len() == 0 {
        0nat
    } else {
        count_active(s.drop_last()) + if s.last().0 {
            1nat
        } else {
            0nat
        }
    }
}

/// Extending the counted prefix by one element adds that element's activity.
pub proof fn lemma_count_active_step(s: Seq<(bool, nat, nat)>, i: int)
    requires
        0 <= i < s.len(),
    ensures
        count_active(s.take(i + 1)) == count_active(s.take(i)) + if s[i].0 {
            1nat
        } else {
            0nat
        },
{
    assert(s.take(i + 1).drop_last() =~= s.take(i));
    assert(s.take(i + 1).last() == s[i]);
}

impl<CB: EffectCallback> ChannelEffects<CB> {
    /// Lifecycle invariant of the registry.
    pub open spec fn wf(self) -> bool {
        life_wf(life(self))
    }

    /// An empty registry: no registrations yet.
    pub fn new() -> (r: ChannelEffects<CB>)
        ensures
            r.slots@.len() == 0,
            r.wf(),
    {
        let r = ChannelEffects { slots: Vec::new() };
        proof {
            assert(life(r) =~= Seq::<(bool, nat, nat)>::empty());
        }
        r
    }

    /// Registers a transform, taking exclusive ownership of it.
    ///
    /// `accepted` is the engine's answer to the registration call. When the
    /// engine accepts, the transform enters the registry as a fresh active
    /// registration and its index is returned. When the engine refuses,
    /// ownership of the transform goes straight back to the caller — it is
    /// neither leaked nor silently dropped — and the registry is unchanged.
    pub fn register(&mut self, accepted: bool, transform: CB) -> (r: Result<usize, CB>)
        requires
            old(self).wf(),
        ensures
            final(self).wf(),
            accepted ==> {
                &&& life(*final(self)) =~= spec_register_life(life(*old(self)))
                &&& r matches Ok(token) && token == old(self).slots@.len()
                &&& final(self).slots@.len() == old(self).slots@.len() + 1
                &&& final(self).slots@[old(self).slots@.len() as int].transform == transform
                &&& forall|i: int|
                    0 <= i < old(self).slots@.len() ==> final(self).slots@[i] == old(self).slots@[i]
            },
            !accepted ==> {
                &&& *final(self) == *old(self)
                &&& r matches Err(t) && t == transform
            },
    {
        if accepted {
            let token = self.slots.len();
            self.slots.push(
                EffectSlot { transform, active: true, ticks: Ghost(0nat), removals: Ghost(0nat) },
            );
            proof {
                assert(life(*self) =~= spec_register_life(life(*old(self))));
            }
            Ok(token)
        } else {
            Err(transform)
        }
    }

    /// One mixing tick for this channel: every active registration's
    /// transform processes the buffer in place, in registration order;
    /// removed registrations are not invoked.
    pub fn mix_tick(&mut self, buffer: &mut Vec<CB::SampleType>)
        requires
            old(self).wf(),
        ensures
            final(self).wf(),
            final(buffer)@.len() == old(buffer)@.len(),
            life(*final(self)) =~= spec_tick_life(life(*old(self))),
            forall|i: int|
                0 <= i < old(self).slots@.len() && !old(self).slots@[i].active ==> final(self).slots@[i] == old(self).slots@[i],
    {
        let n = self.slots.len();
        let mut i: usize = 0;
        while i < n
            invariant
                n == self.slots@.len(),
                self.slots@.len() == old(self).slots@.len(),
                i <= n,
                buffer@.len() == old(buffer)@.len(),
                forall|j: int| i <= j < n ==> self.slots@[j] == old(self).slots@[j],
                forall|j: int|
                    0 <= j < i && !old(self).slots@[j].active ==> self.slots@[j] == old(self).slots@[j],
                forall|j: int|
                    0 <= j < i && old(self).slots@[j].active ==> {
                        &&& (#[trigger] self.slots@[j]).active
                        &&& self.slots@[j].ticks@ == old(self).slots@[j].ticks@ + 1
                        &&& self.slots@[j].removals@ == old(self).slots@[j].removals@
                    },
            decreases n - i,
        {
            if self.slots[i].active {
                let slot = &mut self.slots[i];
                slot.transform.callback(buffer);
                slot.ticks = Ghost((slot.ticks@ + 1) as nat);
            }
            i += 1;
        }
        proof {
            assert(life(*self) =~= spec_tick_life(life(*old(self))));
        }
    }

    /// A removal event for this channel: forces the removal trampoline for
    /// every registration still attached, reclaiming and spending each owned
    /// transform exactly once; already-removed registrations are untouched.
    /// Returns how many registrations were removed.
    pub fn remove_all(&mut self) -> (n: usize)
        requires
            old(self).wf(),
        ensures
            final(self).wf(),
            life(*final(self)) =~= spec_remove_all_life(life(*old(self))),
            n as nat == count_active(life(*old(self))),
            forall|i: int|
                0 <= i < old(self).slots@.len() ==> final(self).slots@[i].transform == old(self).slots@[i].transform,
    {
        let len = self.slots.len();
        let mut i: usize = 0;
        let mut n: usize = 0;
        while i < len
            invariant
                len == self.slots@.len(),
                self.slots@.len() == old(self).slots@.len(),
                i <= len,
                n as nat == count_active(life(*old(self)).take(i as int)),
                n <= i,
                forall|j: int| i <= j < len ==> self.slots@[j] == old(self).slots@[j],
                forall|j: int|
                    0 <= j < i && !old(self).slots@[j].active ==> self.slots@[j] == old(self).slots@[j],
                forall|j: int|
                    0 <= j < i && old(self).slots@[j].active ==> {
                        &&& !(#[trigger] self.slots@[j]).active
                        &&& self.slots@[j].ticks@ == old(self).slots@[j].ticks@
                        &&& self.slots@[j].removals@ == old(self).slots@[j].removals@ + 1
                        &&& self.slots@[j].transform == old(self).slots@[j].transform
                    },
            decreases len - i,
        {
            proof {
                lemma_count_active_step(life(*old(self)), i as int);
            }
            if self.slots[i].active {
                let slot = &mut self.slots[i];
                slot.active = false;
                slot.removals = Ghost((slot.removals@ + 1) as nat);
                n += 1;
            }
            i += 1;
        }
        proof {
            assert(life(*old(self)).take(len as int) =~= life(*old(self)));
            assert(life(*self) =~= spec_remove_all_life(life(*old(self))));
        }
        n
    }
}

/// Law: the removal trampoline runs exactly once per registration over the
/// whole lifecycle, whatever triggers it. In any reachable registry state a
/// registration's removal count is at most one; a removal event brings every
/// registration to a removal count of exactly one; and no later event — not
/// a mixing tick, not another removal event — runs the trampoline again.
pub proof fn lemma_removal_exactly_once(s: Seq<(bool, nat, nat)>, i: int)
    requires
        life_wf(s),
        0 <= i < s.len(),
    ensures
        s[i].2 <= 1,
        spec_remove_all_life(s)[i].2 == 1,
        spec_remove_all_life(spec_remove_all_life(s))[i].2 == 1,
        spec_tick_life(s)[i].2 == s[i].2,
        life_wf(spec_remove_all_life(s)),
        life_wf(spec_tick_life(s)),
        life_wf(spec_register_life(s)),
{
}

/// The signed 16-bit sample encoded little-endian by a low and a high byte.
pub open spec fn spec_s16_from_le(lo: u8, hi: u8) -> i16 {
    ((((hi as u16) << 8) | (lo as u16)) as i16)
}

/// The low byte of a sample's little-endian encoding.
pub open spec fn spec_s16_lo(s: i16) -> u8 {
    (((s as u16) & 0xFF) as u8)
}

/// The high byte of a sample's little-endian encoding.
pub open spec fn spec_s16_hi(s: i16) -> u8 {
    (((s as u16) >> 8) as u8)
}

/// Reads one signed 16-bit sample from its two little-endian bytes.
pub fn s16_from_le(lo: u8, hi: u8) -> (s: i16)
    ensures
        s == spec_s16_from_le(lo, hi),
{
    ((((hi as u16) << 8) | (lo as u16)) as i16)
}

/// Reinterprets a raw mixing buffer as typed samples: every two bytes, in
/// little-endian order, become one signed 16-bit element.
pub fn bytes_to_samples_s16(bytes: &Vec<u8>) -> (samples: Vec<i16>)
    requires
        bytes@.len() % 2 == 0,
    ensures
        samples@.len() == bytes@.len() / 2,
        forall|i: int|
            0 <= i < samples@.len() ==> samples@[i] == spec_s16_from_le(
                bytes@[2 * i],
                bytes@[2 * i + 1],
            ),
{
    let n = bytes.len() / 2;
    let mut samples: Vec<i16> = Vec::new();
    let mut i: usize = 0;
    while i < n
        invariant
            n == bytes@.len() / 2,
            n <= usize::MAX / 2,
            bytes@.len() % 2 == 0,
            i <= n,
            samples@.len() == i,
            forall|j: int|
                0 <= j < i ==> samples@[j] == spec_s16_from_le(bytes@[2 * j], bytes@[2 * j + 1]),
        decreases n - i,
    {
        let lo = bytes[2 * i];
        let hi = bytes[2 * i + 1];
        samples.push(s16_from_le(lo, hi));
        i += 1;
    }
    samples
}

/// Writes typed samples back out as raw bytes, little-endian, two per
/// element: the inverse reslicing of `bytes_to_samples_s16`.
pub fn samples_to_bytes_s16(samples: &Vec<i16>) -> (bytes: Vec<u8>)
    requires
        samples@.len() <= usize::MAX / 2,
    ensures
        bytes@.len() == 2 * samples@.len(),
        forall|i: int|
            0 <= i < samples@.len() ==> bytes@[2 * i] == spec_s16_lo(#[trigger] samples@[i])
                && bytes@[2 * i + 1] == spec_s16_hi(samples@[i]),
{
    let n = samples.len();
    let mut bytes: Vec<u8> = Vec::new();
    let mut i: usize = 0;
    while i < n
        invariant
            n == samples@.len(),
            n <= usize::MAX / 2,
            i <= n,
            bytes@.len() == 2 * i,
            forall|j: int|
                0 <= j < i ==> bytes@[2 * j] == spec_s16_lo(#[trigger] samples@[j])
                    && bytes@[2 * j + 1] == spec_s16_hi(samples@[j]),
        decreases n - i,
    {
        let s = samples[i];
        bytes.push(((s as u16) & 0xFF) as u8);
        bytes.push(((s as u16) >> 8) as u8);
        i += 1;
    }
    bytes
}

/// The per-buffer trampoline's byte-level entry for a 16-bit output format:
/// reslices the raw buffer into `byte length / 2` sample elements, hands
/// exactly that many to the channel's active transforms for one mixing tick,
/// and writes the transformed samples back over the buffer. Returns the
/// number of sample elements presented.
pub fn marshal_buffer_s16<CB: EffectCallback<SampleType = i16>>(
    fx: &mut ChannelEffects<CB>,
    bytes: &mut Vec<u8>,
) -> (n: usize)
    requires
        old(fx).wf(),
        old(bytes)@.len() % 2 == 0,
    ensures
        final(fx).wf(),
        life(*final(fx)) =~= spec_tick_life(life(*old(fx))),
        n == old(bytes)@.len() / 2,
        final(bytes)@.len() == old(bytes)@.len(),
{
    let total = bytes.len();
    let mut samples = bytes_to_samples_s16(bytes);
    let n = samples.len();
    proof {
        assert(samples@.len() <= usize::MAX / 2) by {
            assert(total == old(bytes)@.len());
        }
    }
    fx.mix_tick(&mut samples);
    let out = samples_to_bytes_s16(&samples);
    *bytes = out;
    n
}

/// Law: a registration that is removed before any mixing tick has occurred
/// was never processed — its per-buffer trampoline ran zero times — and its
/// removal trampoline still ran exactly once.
pub proof fn lemma_unregister_without_tick(s: Seq<(bool, nat, nat)>)
    requires
        life_wf(s),
    ensures
        spec_remove_all_life(spec_register_life(s))[s.len() as int].1 == 0,
        spec_remove_all_life(spec_register_life(s))[s.len() as int].2 == 1,
{
}

impl Channel {
    /// Attaches a caller-supplied transform to this channel, handing the
    /// registry exclusive ownership of it. `accepted` is the engine's
    /// answer to the registration call; on refusal the transform is
    /// reclaimed from the registry and deallocated — no further processing
    /// can occur — and the engine's error text is reported.
    pub fn register_effect<CB: EffectCallback>(
        self,
        fx: &mut ChannelEffects<CB>,
        accepted: bool,
        transform: CB,
        engine_error: String,
    ) -> (r: Result<(), String>)
        requires
            old(fx).wf(),
        ensures
            final(fx).wf(),
            r is Ok <==> accepted,
            accepted ==> {
                &&& life(*final(fx)) =~= spec_register_life(life(*old(fx)))
                &&& final(fx).slots@[old(fx).slots@.len() as int].transform == transform
                &&& forall|i: int|
                    0 <= i < old(fx).slots@.len() ==> final(fx).slots@[i] == old(fx).slots@[i]
            },
            !accepted ==> *final(fx) == *old(fx) && (r matches Err(m) && m@ == engine_error@),
    {
        match fx.register(accepted, transform) {
            Ok(_) => Ok(()),
            Err(t) => {
                let _ = t;
                Err(engine_error)
            },
        }
    }

    /// Removes every effect attached to this channel, running each removal
    /// trampoline exactly once; reports failure when there was nothing to
    /// remove.
    pub fn unregister_all_effects<CB: EffectCallback>(self, fx: &mut ChannelEffects<CB>) -> (r:
        Result<(), String>)
        requires
            old(fx).wf(),
        ensures
            final(fx).wf(),
            life(*final(fx)) =~= spec_remove_all_life(life(*old(fx))),
            forall|i: int|
                0 <= i < old(fx).slots@.len() ==> final(fx).slots@[i].transform == old(
                    fx,
                ).slots@[i].transform,
            r is Ok <==> count_active(life(*old(fx))) > 0,
            r is Err ==> (r matches Err(m) && m@ == "No such effect registered"@),
    {
        let n = fx.remove_all();
        if n > 0 {
            Ok(())
        } else {
            Err(String::from_str("No such effect registered"))
        }
    }
}

} // verus!
