//! The model of the engine-side channel state the binding steers: playback,
//! fading, pause, grouping, per-channel volume and spatial-effect settings.
//!
//! All authoritative state lives in the native engine; this is its verified
//! image, and every channel and group operation is specified as an exact
//! transition on it. The unverified shell forwards each operation to the
//! engine and keeps the image in step.

use vstd::prelude::*;
use vstd::string::StringExecFns;
use crate::channel::Channel;
use crate::channel::Fading;
use crate::chunk::Chunk;
use crate::group::Group;

verus! {

/// The engine-visible state of one playback slot.
#[derive(Debug, Copy, Clone, PartialEq, Eq, Structural)]
pub struct ChannelState {
    /// Whether a chunk is playing on the slot.
    pub playing: bool,
    /// Whether the slot is paused.
    pub paused: bool,
    /// The slot's fade state.
    pub fading: Fading,
    /// The group tag the slot belongs to; minus one is the default tag.
    pub group: i32,
    /// When playback started, on the engine's running clock.
    pub started_at: u64,
    /// The handle of the chunk last played on the slot; zero means none.
    pub chunk: u64,
    /// The slot's volume on the zero-to-maximum scale.
    pub volume: i32,
    /// Panning: volume of the left output, up to 255; 255 on both sides
    /// means no panning effect.
    pub pan_left: u8,
    /// Panning: volume of the right output, up to 255.
    pub pan_right: u8,
    /// Distance attenuation, from 0 (close) to 255 (far); 0 means none.
    pub distance: u8,
    /// Positional effect angle in degrees clockwise from straight ahead.
    pub angle: i16,
    /// Positional effect distance; an angle and distance of 0 mean none.
    pub pos_distance: u8,
    /// Whether left and right output are swapped.
    pub reverse: bool,
}

/// A freshly allocated playback slot: idle, in the default group, at full
/// volume, with every spatial effect off.
pub open spec fn spec_fresh_channel() -> ChannelState {
    ChannelState {
        playing: false,
        paused: false,
        fading: Fading::NoFading,
        group: -1i32,
        started_at: 0u64,
        chunk: 0u64,
        volume: 128i32,
        pan_left: 255u8,
        pan_right: 255u8,
        distance: 0u8,
        angle: 0i16,
        pos_distance: 0u8,
        reverse: false,
    }
}

impl ChannelState {
    /// Slot volume stays on the engine's zero-to-maximum scale.
    pub open spec fn wf(self) -> bool {
        0 <= self.volume <= 128
    }
}

/// Builds a freshly allocated playback slot.
fn fresh_channel() -> (c: ChannelState)
    ensures
        c == spec_fresh_channel(),
{
    ChannelState {
        playing: false,
        paused: false,
        fading: Fading::NoFading,
        group: -1,
        started_at: 0,
        chunk: 0,
        volume: 128,
        pan_left: 255,
        pan_right: 255,
        distance: 0,
        angle: 0,
        pos_distance: 0,
        reverse: false,
    }
}

/// The engine-side mixing state: the allocated playback slots, how many of
/// the first slots are reserved away from automatic picking, and the
/// engine's running clock used to order playback starts.
pub struct EngineState {
    /// The allocated playback slots, indexed by channel number.
    pub channels: Vec<ChannelState>,
    /// The first `reserved` slots are never picked automatically.
    pub reserved: usize,
    /// A running clock: each playback start takes the next instant.
    pub time: u64,
}

/// Whether slot `i` is addressed: the broadcast handle addresses them all.
pub open spec fn spec_matches(who: i32, i: int) -> bool {
    who == -1 || who == i
}

/// The slot after playback of chunk `raw` starts on it at instant `now`.
pub open spec fn spec_started(c: ChannelState, raw: u64, fading: Fading, now: u64) -> ChannelState {
    ChannelState { playing: true, paused: false, fading, started_at: now, chunk: raw, ..c }
}

/// The slot after a halt: idle, unpaused, fade state cleared.
pub open spec fn spec_halted(c: ChannelState) -> ChannelState {
    ChannelState { playing: false, paused: false, fading: Fading::NoFading, ..c }
}

/// How many of the slots are playing.
pub open spec fn count_playing(s: Seq<ChannelState>) -> nat
    decreases s.len(),
{
    if s.len() == 0 {
        0nat
    } else {
        count_playing(s.drop_last()) + if s.last().playing {
            1nat
        } else {
            0nat
        }
    }
}

/// How many of the slots are paused.
pub open spec fn count_paused(s: Seq<ChannelState>) -> nat
    decreases s.len(),
{
    if s.len() == 0 {
        0nat
    } else {
        count_paused(s.drop_last()) + if s.last().paused {
            1nat
        } else {
            0nat
        }
    }
}

/// Extending the counted prefix by one slot adds that slot's state.
pub proof fn lemma_count_playing_step(s: Seq<ChannelState>, i: int)
    requires
        0 <= i < s.len(),
    ensures
        count_playing(s.take(i + 1)) == count_playing(s.take(i)) + if s[i].playing {
            1nat
        } else {
            0nat
        },
        count_paused(s.take(i + 1)) == count_paused(s.take(i)) + if s[i].paused {
            1nat
        } else {
            0nat
        },
{
    assert(s.take(i + 1).drop_last() =~= s.take(i));
    assert(s.take(i + 1).last() == s[i]);
}

impl EngineState {
    /// Model invariant: the reservation never exceeds the allocation, the
    /// allocation fits the engine's signed channel counters, and every slot
    /// is well formed.
    pub open spec fn wf(self) -> bool {
        &&& self.reserved <= self.channels@.len()
        &&& self.channels@.len() <= 0x7FFF_FFFF
        &&& forall|i: int| 0 <= i < self.channels@.len() ==> (#[trigger] self.channels@[i]).wf()
    }

    /// The engine before any channels are allocated.
    pub fn new() -> (r: EngineState)
        ensures
            r.wf(),
            r.channels@.len() == 0,
            r.reserved == 0,
            r.time == 0,
    {
        EngineState { channels: Vec::new(), reserved: 0, time: 0 }
    }

    /// Sets the number of mixed channels and returns it. A negative request
    /// only queries the current allocation. Shrinking drops the highest
    /// slots (and trims the reservation with them); growing appends fresh
    /// slots; surviving slots keep their state.
    pub fn allocate_channels(&mut self, numchans: i32) -> (n: i32)
        requires
            old(self).wf(),
        ensures
            final(self).wf(),
            final(self).time == old(self).time,
            numchans < 0 ==> *final(self) == *old(self) && n == old(self).channels@.len(),
            numchans >= 0 ==> {
                &&& n == numchans
                &&& final(self).channels@.len() == numchans
                &&& forall|i: int|
                    0 <= i < numchans && i < old(self).channels@.len()
                        ==> final(self).channels@[i] == old(self).channels@[i]
                &&& forall|i: int|
                    old(self).channels@.len() <= i < numchans ==> final(self).channels@[i]
                        == spec_fresh_channel()
                &&& final(self).reserved == if old(self).reserved <= numchans {
                    old(self).reserved as int
                } else {
                    numchans as int
                }
            },
    {
        let cur = self.channels.len();
        if numchans < 0 {
            return cur as i32;
        }
        let target = numchans as usize;
        if target < cur {
            self.channels.truncate(target);
            if self.reserved > target {
                self.reserved = target;
            }
        } else {
            while self.channels.len() < target
                invariant
                    target <= 0x7FFF_FFFF,
                    old(self).channels@.len() <= self.channels@.len() <= target,
                    self.reserved == old(self).reserved,
                    self.time == old(self).time,
                    self.reserved <= old(self).channels@.len(),
                    forall|i: int|
                        0 <= i < old(self).channels@.len() ==> (#[trigger] self.channels@[i])
                            == old(self).channels@[i],
                    forall|i: int|
                        old(self).channels@.len() <= i < self.channels@.len() ==> (
                        #[trigger] self.channels@[i]) == spec_fresh_channel(),
                    forall|i: int|
                        0 <= i < self.channels@.len() ==> (#[trigger] self.channels@[i]).wf(),
                decreases target - self.channels@.len(),
            {
                self.channels.push(fresh_channel());
            }
        }
        numchans
    }

    /// Reserves the first `num` channels away from automatic picking and
    /// returns how many are actually reserved, which never exceeds the
    /// allocation; a request at or below zero clears the reservation.
    pub fn reserve_channels(&mut self, num: i32) -> (n: i32)
        requires
            old(self).wf(),
        ensures
            final(self).wf(),
            final(self).channels@ == old(self).channels@,
            final(self).time == old(self).time,
            n == final(self).reserved,
            num <= 0 ==> final(self).reserved == 0,
            num > 0 ==> final(self).reserved == if num <= old(self).channels@.len() {
                num as int
            } else {
                old(self).channels@.len() as int
            },
    {
        let len = self.channels.len();
        if num <= 0 {
            self.reserved = 0;
            0
        } else if (num as usize) <= len {
            self.reserved = num as usize;
            num
        } else {
            self.reserved = len;
            len as i32
        }
    }

    /// How many channels are currently playing.
    pub fn playing_count(&self) -> (n: i32)
        requires
            self.wf(),
        ensures
            n == count_playing(self.channels@),
    {
        let len = self.channels.len();
        let mut i: usize = 0;
        let mut n: i32 = 0;
        while i < len
            invariant
                len == self.channels@.len(),
                len <= 0x7FFF_FFFF,
                i <= len,
                n == count_playing(self.channels@.take(i as int)),
                n <= i,
            decreases len - i,
        {
            proof {
                lemma_count_playing_step(self.channels@, i as int);
            }
            if self.channels[i].playing {
                n = n + 1;
            }
            i += 1;
        }
        proof {
            assert(self.channels@.take(len as int) =~= self.channels@);
        }
        n
    }

    /// How many channels are currently paused.
    pub fn paused_count(&self) -> (n: i32)
        requires
            self.wf(),
        ensures
            n == count_paused(self.channels@),
    {
        let len = self.channels.len();
        let mut i: usize = 0;
        let mut n: i32 = 0;
        while i < len
            invariant
                len == self.channels@.len(),
                len <= 0x7FFF_FFFF,
                i <= len,
                n == count_paused(self.channels@.take(i as int)),
                n <= i,
            decreases len - i,
        {
            proof {
                lemma_count_playing_step(self.channels@, i as int);
            }
            if self.channels[i].paused {
                n = n + 1;
            }
            i += 1;
        }
        proof {
            assert(self.channels@.take(len as int) =~= self.channels@);
        }
        n
    }
}

/// The first free unreserved slot, when the broadcast handle has to pick
/// one: the least index at or past the reservation that is not playing.
fn find_free(eng: &EngineState) -> (r: Option<usize>)
    requires
        eng.wf(),
    ensures
        r matches Some(i) ==> {
            &&& eng.reserved <= i < eng.channels@.len()
            &&& !eng.channels@[i as int].playing
            &&& forall|j: int|
                eng.reserved <= j < i ==> (#[trigger] eng.channels@[j]).playing
        },
        r is None ==> forall|j: int|
            eng.reserved <= j < eng.channels@.len() ==> (#[trigger] eng.channels@[j]).playing,
{
    let len = eng.channels.len();
    let mut i: usize = eng.reserved;
    while i < len
        invariant
            len == eng.channels@.len(),
            eng.reserved <= i <= len,
            forall|j: int| eng.reserved <= j < i ==> (#[trigger] eng.channels@[j]).playing,
        decreases len - i,
    {
        if !eng.channels[i].playing {
            return Some(i);
        }
        i += 1;
    }
    None
}

/// Exactly what starting playback through handle `who` does and returns: a
/// concrete in-range slot starts (whatever it was doing before) and is
/// handed back; the broadcast handle starts the first free unreserved slot
/// or fails when every one is busy; any other handle is refused. Each
/// successful start takes the next clock instant.
pub open spec fn spec_play_outcome(
    pre: EngineState,
    post: EngineState,
    who: i32,
    raw: u64,
    fading: Fading,
    r: Result<Channel, String>,
) -> bool {
    let len = pre.channels@.len() as int;
    &&& post.reserved == pre.reserved
    &&& (0 <= who < len ==> {
        &&& r matches Ok(c) && c.0 == who
        &&& post.channels@ =~= pre.channels@.update(
            who as int,
            spec_started(pre.channels@[who as int], raw, fading, pre.time),
        )
        &&& post.time == pre.time + 1
    })
    &&& (who == -1 ==> {
        &&& (r matches Ok(c) ==> {
            &&& pre.reserved <= c.0 < len
            &&& !pre.channels@[c.0 as int].playing
            &&& forall|j: int| pre.reserved <= j < c.0 ==> (#[trigger] pre.channels@[j]).playing
            &&& post.channels@ =~= pre.channels@.update(
                c.0 as int,
                spec_started(pre.channels@[c.0 as int], raw, fading, pre.time),
            )
            &&& post.time == pre.time + 1
        })
        &&& (r matches Err(m) ==> {
            &&& m@ == "No free channels available"@
            &&& forall|j: int|
                pre.reserved <= j < len ==> (#[trigger] pre.channels@[j]).playing
            &&& post == pre
        })
    })
    &&& ((who < -1 || who >= len) ==> {
        &&& post == pre
        &&& r matches Err(m) && m@ == "Invalid channel number"@
    })
}

/// Starts playback of chunk `raw` through handle `who` with the given fade
/// state; the shared body of the play and fade-in entry points.
fn start_channel(eng: &mut EngineState, who: i32, raw: u64, fading: Fading) -> (r: Result<
    Channel,
    String,
>)
    requires
        old(eng).wf(),
        old(eng).time < u64::MAX,
    ensures
        final(eng).wf(),
        spec_play_outcome(*old(eng), *final(eng), who, raw, fading, r),
{
    let len = eng.channels.len();
    if who >= 0 {
        if (who as usize) < len {
            let idx = who as usize;
            let now = eng.time;
            let slot = &mut eng.channels[idx];
            slot.playing = true;
            slot.paused = false;
            slot.fading = fading;
            slot.started_at = now;
            slot.chunk = raw;
            eng.time = now + 1;
            Ok(Channel(who))
        } else {
            Err(String::from_str("Invalid channel number"))
        }
    } else if who == -1 {
        match find_free(eng) {
            Some(idx) => {
                let now = eng.time;
                let slot = &mut eng.channels[idx];
                slot.playing = true;
                slot.paused = false;
                slot.fading = fading;
                slot.started_at = now;
                slot.chunk = raw;
                eng.time = now + 1;
                Ok(Channel(idx as i32))
            },
            None => Err(String::from_str("No free channels available")),
        }
    } else {
        Err(String::from_str("Invalid channel number"))
    }
}

/// The slots after pausing (or resuming) through handle `who`.
pub open spec fn spec_set_paused_sel(s: Seq<ChannelState>, who: i32, p: bool) -> Seq<
    ChannelState,
> {
    Seq::new(
        s.len(),
        |i: int|
            if spec_matches(who, i) {
                ChannelState { paused: p, ..s[i] }
            } else {
                s[i]
            },
    )
}

/// The slots after halting through handle `who`.
pub open spec fn spec_halt_sel(s: Seq<ChannelState>, who: i32) -> Seq<ChannelState> {
    Seq::new(
        s.len(),
        |i: int|
            if spec_matches(who, i) {
                spec_halted(s[i])
            } else {
                s[i]
            },
    )
}

/// The slots after a fade-out order through handle `who`: every addressed
/// playing slot starts fading out, the rest are untouched.
pub open spec fn spec_fade_out_sel(s: Seq<ChannelState>, who: i32) -> Seq<ChannelState> {
    Seq::new(
        s.len(),
        |i: int|
            if spec_matches(who, i) && s[i].playing {
                ChannelState { fading: Fading::FadingOut, ..s[i] }
            } else {
                s[i]
            },
    )
}

/// How many slots handle `who` addresses that are playing: what fade-out
/// and expiry orders report.
pub open spec fn count_playing_sel(s: Seq<ChannelState>, who: i32) -> nat {
    if who == -1 {
        count_playing(s)
    } else if 0 <= who < s.len() && s[who as int].playing {
        1nat
    } else {
        0nat
    }
}

impl Channel {
    /// Plays a chunk on this channel — the broadcast handle picks the first
    /// free unreserved one — looping `loops` extra times.
    pub fn play(self, eng: &mut EngineState, chunk: &Chunk, loops: i32) -> (r: Result<
        Channel,
        String,
    >)
        requires
            old(eng).wf(),
            old(eng).time < u64::MAX,
        ensures
            final(eng).wf(),
            spec_play_outcome(*old(eng), *final(eng), self.0, chunk.raw, Fading::NoFading, r),
    {
        self.play_timed(eng, chunk, loops, -1)
    }

    /// Plays a chunk on this channel, halting it after at most `ticks`
    /// milliseconds; the cutoff clock runs in the engine, not here.
    pub fn play_timed(self, eng: &mut EngineState, chunk: &Chunk, loops: i32, ticks: i32) -> (r:
        Result<Channel, String>)
        requires
            old(eng).wf(),
            old(eng).time < u64::MAX,
        ensures
            final(eng).wf(),
            spec_play_outcome(*old(eng), *final(eng), self.0, chunk.raw, Fading::NoFading, r),
    {
        let _ = loops;
        let _ = ticks;
        start_channel(eng, self.0, chunk.raw, Fading::NoFading)
    }

    /// Plays a chunk on this channel, fading it in over `ms` milliseconds.
    pub fn fade_in(self, eng: &mut EngineState, chunk: &Chunk, loops: i32, ms: i32) -> (r: Result<
        Channel,
        String,
    >)
        requires
            old(eng).wf(),
            old(eng).time < u64::MAX,
        ensures
            final(eng).wf(),
            spec_play_outcome(*old(eng), *final(eng), self.0, chunk.raw, Fading::FadingIn, r),
    {
        self.fade_in_timed(eng, chunk, loops, ms, -1)
    }

    /// Plays a chunk on this channel, fading it in over `ms` milliseconds
    /// and halting it after at most `ticks` milliseconds.
    pub fn fade_in_timed(
        self,
        eng: &mut EngineState,
        chunk: &Chunk,
        loops: i32,
        ms: i32,
        ticks: i32,
    ) -> (r: Result<Channel, String>)
        requires
            old(eng).wf(),
            old(eng).time < u64::MAX,
        ensures
            final(eng).wf(),
            spec_play_outcome(*old(eng), *final(eng), self.0, chunk.raw, Fading::FadingIn, r),
    {
        let _ = loops;
        let _ = ms;
        let _ = ticks;
        start_channel(eng, self.0, chunk.raw, Fading::FadingIn)
    }

    /// Pauses this channel, or every playing channel for the broadcast
    /// handle; an out-of-range handle changes nothing.
    pub fn pause(self, eng: &mut EngineState)
        requires
            old(eng).wf(),
        ensures
            final(eng).wf(),
            final(eng).reserved == old(eng).reserved,
            final(eng).time == old(eng).time,
            final(eng).channels@ =~= spec_set_paused_sel(old(eng).channels@, self.0, true),
    {
        set_paused_sel(eng, self.0, true);
    }

    /// Unpauses this channel, or every paused channel for the broadcast
    /// handle; an out-of-range handle changes nothing.
    pub fn resume(self, eng: &mut EngineState)
        requires
            old(eng).wf(),
        ensures
            final(eng).wf(),
            final(eng).reserved == old(eng).reserved,
            final(eng).time == old(eng).time,
            final(eng).channels@ =~= spec_set_paused_sel(old(eng).channels@, self.0, false),
    {
        set_paused_sel(eng, self.0, false);
    }

    /// Halts playback on this channel, or on every channel for the
    /// broadcast handle. A halt also ends the channel's effect
    /// registrations: the shell relays it to the channel's effect registry,
    /// whose removal event runs each removal trampoline exactly once.
    pub fn halt(self, eng: &mut EngineState)
        requires
            old(eng).wf(),
        ensures
            final(eng).wf(),
            final(eng).reserved == old(eng).reserved,
            final(eng).time == old(eng).time,
            final(eng).channels@ =~= spec_halt_sel(old(eng).channels@, self.0),
    {
        let len = eng.channels.len();
        if self.0 == -1 {
            let mut i: usize = 0;
            while i < len
                invariant
                    len == eng.channels@.len(),
                    eng.channels@.len() == old(eng).channels@.len(),
                    i <= len,
                    eng.reserved == old(eng).reserved,
                    eng.time == old(eng).time,
                    forall|j: int| i <= j < len ==> eng.channels@[j] == old(eng).channels@[j],
                    forall|j: int|
                        0 <= j < i ==> eng.channels@[j] == spec_halted(old(eng).channels@[j]),
                    forall|j: int|
                        0 <= j < len ==> (#[trigger] eng.channels@[j]).wf(),
                decreases len - i,
            {
                let slot = &mut eng.channels[i];
                slot.playing = false;
                slot.paused = false;
                slot.fading = Fading::NoFading;
                i += 1;
            }
            proof {
                assert(eng.channels@ =~= spec_halt_sel(old(eng).channels@, -1i32));
            }
        } else if self.0 >= 0 && (self.0 as usize) < len {
            let idx = self.0 as usize;
            let slot = &mut eng.channels[idx];
            slot.playing = false;
            slot.paused = false;
            slot.fading = Fading::NoFading;
            proof {
                assert(eng.channels@ =~= spec_halt_sel(old(eng).channels@, self.0));
            }
        } else {
            proof {
                assert(eng.channels@ =~= spec_halt_sel(old(eng).channels@, self.0));
            }
        }
    }

    /// Schedules a halt of the addressed channels after `ticks`
    /// milliseconds — the cutoff clock runs in the engine, so the model
    /// state is untouched — and returns how many playing channels the order
    /// covers.
    pub fn expire(self, eng: &EngineState, ticks: i32) -> (n: i32)
        requires
            eng.wf(),
        ensures
            n == count_playing_sel(eng.channels@, self.0),
    {
        let _ = ticks;
        let len = eng.channels.len();
        if self.0 == -1 {
            eng.playing_count()
        } else if self.0 >= 0 && (self.0 as usize) < len {
            if eng.channels[self.0 as usize].playing {
                1
            } else {
                0
            }
        } else {
            0
        }
    }

    /// Starts fading out the addressed playing channels over `ms`
    /// milliseconds and returns how many were set to fade.
    pub fn fade_out(self, eng: &mut EngineState, ms: i32) -> (n: i32)
        requires
            old(eng).wf(),
        ensures
            final(eng).wf(),
            final(eng).reserved == old(eng).reserved,
            final(eng).time == old(eng).time,
            final(eng).channels@ =~= spec_fade_out_sel(old(eng).channels@, self.0),
            n == count_playing_sel(old(eng).channels@, self.0),
    {
        let _ = ms;
        let len = eng.channels.len();
        if self.0 == -1 {
            let mut i: usize = 0;
            let mut n: i32 = 0;
            while i < len
                invariant
                    len == eng.channels@.len(),
                    eng.channels@.len() == old(eng).channels@.len(),
                    len <= 0x7FFF_FFFF,
                    i <= len,
                    eng.reserved == old(eng).reserved,
                    eng.time == old(eng).time,
                    n == count_playing(old(eng).channels@.take(i as int)),
                    n <= i,
                    forall|j: int| i <= j < len ==> eng.channels@[j] == old(eng).channels@[j],
                    forall|j: int|
                        0 <= j < i ==> eng.channels@[j] == (if old(eng).channels@[j].playing {
                            ChannelState { fading: Fading::FadingOut, ..old(eng).channels@[j] }
                        } else {
                            old(eng).channels@[j]
                        }),
                    forall|j: int|
                        0 <= j < len ==> (#[trigger] eng.channels@[j]).wf(),
                decreases len - i,
            {
                proof {
                    lemma_count_playing_step(old(eng).channels@, i as int);
                }
                if eng.channels[i].playing {
                    let slot = &mut eng.channels[i];
                    slot.fading = Fading::FadingOut;
                    n = n + 1;
                }
                i += 1;
            }
            proof {
                assert(old(eng).channels@.take(len as int) =~= old(eng).channels@);
                assert(eng.channels@ =~= spec_fade_out_sel(old(eng).channels@, -1i32));
            }
            n
        } else if self.0 >= 0 && (self.0 as usize) < len {
            let idx = self.0 as usize;
            let was_playing = eng.channels[idx].playing;
            if was_playing {
                let slot = &mut eng.channels[idx];
                slot.fading = Fading::FadingOut;
            }
            proof {
                assert(eng.channels@ =~= spec_fade_out_sel(old(eng).channels@, self.0));
            }
            if was_playing {
                1
            } else {
                0
            }
        } else {
            proof {
                assert(eng.channels@ =~= spec_fade_out_sel(old(eng).channels@, self.0));
            }
            0
        }
    }

    /// Whether this channel is playing; for the broadcast handle, whether
    /// any channel is.
    pub fn is_playing(self, eng: &EngineState) -> (r: bool)
        requires
            eng.wf(),
        ensures
            self.0 == -1 ==> r == (count_playing(eng.channels@) > 0),
            0 <= self.0 < eng.channels@.len() ==> r == eng.channels@[self.0 as int].playing,
            self.0 < -1 || self.0 >= eng.channels@.len() ==> r == false,
    {
        let len = eng.channels.len();
        if self.0 == -1 {
            eng.playing_count() > 0
        } else if self.0 >= 0 && (self.0 as usize) < len {
            eng.channels[self.0 as usize].playing
        } else {
            false
        }
    }

    /// Whether this channel is paused; for the broadcast handle, whether
    /// any channel is.
    pub fn is_paused(self, eng: &EngineState) -> (r: bool)
        requires
            eng.wf(),
        ensures
            self.0 == -1 ==> r == (count_paused(eng.channels@) > 0),
            0 <= self.0 < eng.channels@.len() ==> r == eng.channels@[self.0 as int].paused,
            self.0 < -1 || self.0 >= eng.channels@.len() ==> r == false,
    {
        let len = eng.channels.len();
        if self.0 == -1 {
            eng.paused_count() > 0
        } else if self.0 >= 0 && (self.0 as usize) < len {
            eng.channels[self.0 as usize].paused
        } else {
            false
        }
    }

    /// This channel's fade state; a handle that names no single channel
    /// reads as not fading.
    pub fn get_fading(self, eng: &EngineState) -> (r: Fading)
        requires
            eng.wf(),
        ensures
            0 <= self.0 < eng.channels@.len() ==> r == eng.channels@[self.0 as int].fading,
            self.0 < 0 || self.0 >= eng.channels@.len() ==> r == Fading::NoFading,
    {
        let len = eng.channels.len();
        if self.0 >= 0 && (self.0 as usize) < len {
            eng.channels[self.0 as usize].fading
        } else {
            Fading::NoFading
        }
    }

    /// The most recent chunk played on this channel, as a borrowed view
    /// that must not free the handle; none when the channel never played or
    /// the handle names no single channel.
    pub fn get_chunk(self, eng: &EngineState) -> (r: Option<Chunk>)
        requires
            eng.wf(),
        ensures
            0 <= self.0 < eng.channels@.len() ==> {
                &&& r is Some <==> eng.channels@[self.0 as int].chunk != 0
                &&& r matches Some(c) ==> c.raw == eng.channels@[self.0 as int].chunk
                    && !c.owned
            },
            self.0 < 0 || self.0 >= eng.channels@.len() ==> r is None,
    {
        let len = eng.channels.len();
        if self.0 >= 0 && (self.0 as usize) < len {
            Chunk::from_query(eng.channels[self.0 as usize].chunk)
        } else {
            None
        }
    }
}

/// The shared body of pause and resume: sets the paused flag of every
/// addressed slot.
fn set_paused_sel(eng: &mut EngineState, who: i32, p: bool)
    requires
        old(eng).wf(),
    ensures
        final(eng).wf(),
        final(eng).reserved == old(eng).reserved,
        final(eng).time == old(eng).time,
        final(eng).channels@ =~= spec_set_paused_sel(old(eng).channels@, who, p),
{
    let len = eng.channels.len();
    if who == -1 {
        let mut i: usize = 0;
        while i < len
            invariant
                len == eng.channels@.len(),
                eng.channels@.len() == old(eng).channels@.len(),
                i <= len,
                eng.reserved == old(eng).reserved,
                eng.time == old(eng).time,
                forall|j: int| i <= j < len ==> eng.channels@[j] == old(eng).channels@[j],
                forall|j: int|
                    0 <= j < i ==> eng.channels@[j] == (ChannelState {
                        paused: p,
                        ..old(eng).channels@[j]
                    }),
                forall|j: int|
                    0 <= j < len ==> (#[trigger] eng.channels@[j]).wf(),
            decreases len - i,
        {
            let slot = &mut eng.channels[i];
            slot.paused = p;
            i += 1;
        }
        proof {
            assert(eng.channels@ =~= spec_set_paused_sel(old(eng).channels@, -1i32, p));
        }
    } else if who >= 0 && (who as usize) < len {
        let idx = who as usize;
        let slot = &mut eng.channels[idx];
        slot.paused = p;
        proof {
            assert(eng.channels@ =~= spec_set_paused_sel(old(eng).channels@, who, p));
        }
    } else {
        proof {
            assert(eng.channels@ =~= spec_set_paused_sel(old(eng).channels@, who, p));
        }
    }
}

/// The sum of all slot volumes, for the broadcast volume query.
pub open spec fn sum_volumes(s: Seq<ChannelState>) -> int
    decreases s.len(),
{
    if s.len() == 0 {
        0
    } else {
        sum_volumes(s.drop_last()) + s.last().volume
    }
}

/// Extending the summed prefix by one slot adds that slot's volume.
pub proof fn lemma_sum_volumes_step(s: Seq<ChannelState>, i: int)
    requires
        0 <= i < s.len(),
    ensures
        sum_volumes(s.take(i + 1)) == sum_volumes(s.take(i)) + s[i].volume,
{
    assert(s.take(i + 1).drop_last() =~= s.take(i));
    assert(s.take(i + 1).last() == s[i]);
}

/// A volume on the engine's scale, clamped from above at the maximum.
pub open spec fn spec_clamp_volume(v: i32) -> i32 {
    if v > 128 {
        128i32
    } else {
        v
    }
}

/// The slots after a volume order through handle `who`: a negative volume
/// only queries and changes nothing.
pub open spec fn spec_set_volume_sel(s: Seq<ChannelState>, who: i32, v: i32) -> Seq<ChannelState> {
    Seq::new(
        s.len(),
        |i: int|
            if spec_matches(who, i) && v >= 0 {
                ChannelState { volume: spec_clamp_volume(v), ..s[i] }
            } else {
                s[i]
            },
    )
}

/// The slot with a panning effect of `l` and `r` applied; both at 255 is
/// the no-panning state a fresh slot starts in.
pub open spec fn spec_panned(c: ChannelState, l: u8, r: u8) -> ChannelState {
    ChannelState { pan_left: l, pan_right: r, ..c }
}

/// The slot with a distance-attenuation effect of `d` applied; zero is the
/// no-attenuation state a fresh slot starts in.
pub open spec fn spec_distanced(c: ChannelState, d: u8) -> ChannelState {
    ChannelState { distance: d, ..c }
}

/// The slot with a positional effect applied; angle and distance both zero
/// is the no-position state a fresh slot starts in.
pub open spec fn spec_positioned(c: ChannelState, angle: i16, d: u8) -> ChannelState {
    ChannelState { angle, pos_distance: d, ..c }
}

/// The slot with reverse stereo switched on or off.
pub open spec fn spec_reversed(c: ChannelState, flip: bool) -> ChannelState {
    ChannelState { reverse: flip, ..c }
}

/// The slot after any sequence of panning settings, applied oldest first.
pub open spec fn spec_apply_pannings(c: ChannelState, ps: Seq<(u8, u8)>) -> ChannelState
    decreases ps.len(),
{
    if ps.len() == 0 {
        c
    } else {
        spec_panned(spec_apply_pannings(c, ps.drop_last()), ps.last().0, ps.last().1)
    }
}

/// Law: unsetting panning is idempotent over any history of settings. A
/// slot that started without a panning effect, had any sequence of pannings
/// applied, and is then unset, is exactly the slot that never had panning
/// set at all.
pub proof fn lemma_unset_panning_restores(c: ChannelState, ps: Seq<(u8, u8)>)
    requires
        c.pan_left == 255,
        c.pan_right == 255,
    ensures
        spec_panned(spec_apply_pannings(c, ps), 255u8, 255u8) == c,
    decreases ps.len(),
{
    if ps.len() > 0 {
        lemma_unset_panning_restores(c, ps.drop_last());
    }
}

impl Channel {
    /// Sets the addressed channels' volume — clamping values above the
    /// maximum, a negative value querying only — and returns the previous
    /// volume: the addressed slot's own, or the average over all slots for
    /// the broadcast handle.
    pub fn set_volume(self, eng: &mut EngineState, volume: i32) -> (r: i32)
        requires
            old(eng).wf(),
        ensures
            final(eng).wf(),
            final(eng).reserved == old(eng).reserved,
            final(eng).time == old(eng).time,
            final(eng).channels@ =~= spec_set_volume_sel(old(eng).channels@, self.0, volume),
            0 <= self.0 < old(eng).channels@.len() ==> r == old(eng).channels@[self.0 as int].volume,
            self.0 == -1 && old(eng).channels@.len() == 0 ==> r == 0,
            self.0 == -1 && old(eng).channels@.len() > 0 ==> r == sum_volumes(old(eng).channels@)
                / (old(eng).channels@.len() as int),
            self.0 < -1 || self.0 >= old(eng).channels@.len() ==> r == 0,
    {
        let len = eng.channels.len();
        if self.0 == -1 {
            let mut i: usize = 0;
            let mut sum: i64 = 0;
            while i < len
                invariant
                    len == eng.channels@.len(),
                    eng.channels@.len() == old(eng).channels@.len(),
                    len <= 0x7FFF_FFFF,
                    i <= len,
                    eng.reserved == old(eng).reserved,
                    eng.time == old(eng).time,
                    sum == sum_volumes(old(eng).channels@.take(i as int)),
                    0 <= sum <= 128 * i,
                    forall|j: int| i <= j < len ==> eng.channels@[j] == old(eng).channels@[j],
                    forall|j: int|
                        0 <= j < i ==> eng.channels@[j] == (if volume >= 0 {
                            ChannelState {
                                volume: spec_clamp_volume(volume),
                                ..old(eng).channels@[j]
                            }
                        } else {
                            old(eng).channels@[j]
                        }),
                    forall|j: int|
                        0 <= j < i ==> (#[trigger] old(eng).channels@[j]).wf(),
                    forall|j: int|
                        0 <= j < len ==> (#[trigger] eng.channels@[j]).wf(),
                decreases len - i,
            {
                proof {
                    lemma_sum_volumes_step(old(eng).channels@, i as int);
                }
                let v = eng.channels[i].volume;
                sum = sum + (v as i64);
                if volume >= 0 {
                    let slot = &mut eng.channels[i];
                    if volume > 128 {
                        slot.volume = 128;
                    } else {
                        slot.volume = volume;
                    }
                }
                i += 1;
            }
            proof {
                assert(old(eng).channels@.take(len as int) =~= old(eng).channels@);
                assert(eng.channels@ =~= spec_set_volume_sel(old(eng).channels@, -1i32, volume));
            }
            if len == 0 {
                0
            } else {
                proof {
                    vstd::arithmetic::div_mod::lemma_div_pos_is_pos(sum as int, len as int);
                    vstd::arithmetic::div_mod::lemma_div_is_ordered(sum as int, 128 * len, len as int);
                    vstd::arithmetic::div_mod::lemma_div_multiples_vanish(128, len as int);
                }
                (sum / (len as i64)) as i32
            }
        } else if self.0 >= 0 && (self.0 as usize) < len {
            let idx = self.0 as usize;
            let prev = eng.channels[idx].volume;
            if volume >= 0 {
                let slot = &mut eng.channels[idx];
                if volume > 128 {
                    slot.volume = 128;
                } else {
                    slot.volume = volume;
                }
            }
            proof {
                assert(eng.channels@ =~= spec_set_volume_sel(old(eng).channels@, self.0, volume));
            }
            prev
        } else {
            proof {
                assert(eng.channels@ =~= spec_set_volume_sel(old(eng).channels@, self.0, volume));
            }
            0
        }
    }

    /// The addressed channel's volume, or the average over all slots for
    /// the broadcast handle.
    pub fn get_volume(self, eng: &mut EngineState) -> (r: i32)
        requires
            old(eng).wf(),
        ensures
            final(eng).wf(),
            final(eng).channels@ == old(eng).channels@,
            final(eng).reserved == old(eng).reserved,
            final(eng).time == old(eng).time,
            0 <= self.0 < old(eng).channels@.len() ==> r == old(eng).channels@[self.0 as int].volume,
            self.0 == -1 && old(eng).channels@.len() == 0 ==> r == 0,
            self.0 == -1 && old(eng).channels@.len() > 0 ==> r == sum_volumes(old(eng).channels@)
                / (old(eng).channels@.len() as int),
            self.0 < -1 || self.0 >= old(eng).channels@.len() ==> r == 0,
    {
        let r = self.set_volume(eng, -1);
        proof {
            assert(eng.channels@ =~= old(eng).channels@);
        }
        r
    }

    /// Applies a panning effect: `left` and `right` are the volumes of the
    /// two outputs, from 0 (silent) to 255 (loud). Only a concrete
    /// allocated channel can carry the effect.
    pub fn set_panning(self, eng: &mut EngineState, left: u8, right: u8) -> (r: Result<(), String>)
        requires
            old(eng).wf(),
        ensures
            final(eng).wf(),
            final(eng).reserved == old(eng).reserved,
            final(eng).time == old(eng).time,
            r is Ok <==> 0 <= self.0 < old(eng).channels@.len(),
            r is Ok ==> final(eng).channels@ =~= old(eng).channels@.update(
                self.0 as int,
                spec_panned(old(eng).channels@[self.0 as int], left, right),
            ),
            r is Err ==> *final(eng) == *old(eng) && (r matches Err(m) && m@
                == "Invalid channel number"@),
    {
        let len = eng.channels.len();
        if self.0 >= 0 && (self.0 as usize) < len {
            let idx = self.0 as usize;
            let slot = &mut eng.channels[idx];
            slot.pan_left = left;
            slot.pan_right = right;
            Ok(())
        } else {
            Err(String::from_str("Invalid channel number"))
        }
    }

    /// Removes any panning effect: both outputs back at full volume, the
    /// state a channel that never had panning set is in.
    pub fn unset_panning(self, eng: &mut EngineState) -> (r: Result<(), String>)
        requires
            old(eng).wf(),
        ensures
            final(eng).wf(),
            final(eng).reserved == old(eng).reserved,
            final(eng).time == old(eng).time,
            r is Ok <==> 0 <= self.0 < old(eng).channels@.len(),
            r is Ok ==> final(eng).channels@ =~= old(eng).channels@.update(
                self.0 as int,
                spec_panned(old(eng).channels@[self.0 as int], 255u8, 255u8),
            ),
            r is Err ==> *final(eng) == *old(eng) && (r matches Err(m) && m@
                == "Invalid channel number"@),
    {
        self.set_panning(eng, 255, 255)
    }

    /// Applies a distance-attenuation effect, from 0 (close, loud) to 255
    /// (far, quiet).
    pub fn set_distance(self, eng: &mut EngineState, distance: u8) -> (r: Result<(), String>)
        requires
            old(eng).wf(),
        ensures
            final(eng).wf(),
            final(eng).reserved == old(eng).reserved,
            final(eng).time == old(eng).time,
            r is Ok <==> 0 <= self.0 < old(eng).channels@.len(),
            r is Ok ==> final(eng).channels@ =~= old(eng).channels@.update(
                self.0 as int,
                spec_distanced(old(eng).channels@[self.0 as int], distance),
            ),
            r is Err ==> *final(eng) == *old(eng) && (r matches Err(m) && m@
                == "Invalid channel number"@),
    {
        let len = eng.channels.len();
        if self.0 >= 0 && (self.0 as usize) < len {
            let idx = self.0 as usize;
            let slot = &mut eng.channels[idx];
            slot.distance = distance;
            Ok(())
        } else {
            Err(String::from_str("Invalid channel number"))
        }
    }

    /// Removes any distance-attenuation effect.
    pub fn unset_distance(self, eng: &mut EngineState) -> (r: Result<(), String>)
        requires
            old(eng).wf(),
        ensures
            final(eng).wf(),
            final(eng).reserved == old(eng).reserved,
            final(eng).time == old(eng).time,
            r is Ok <==> 0 <= self.0 < old(eng).channels@.len(),
            r is Ok ==> final(eng).channels@ =~= old(eng).channels@.update(
                self.0 as int,
                spec_distanced(old(eng).channels@[self.0 as int], 0u8),
            ),
            r is Err ==> *final(eng) == *old(eng) && (r matches Err(m) && m@
                == "Invalid channel number"@),
    {
        self.set_distance(eng, 0)
    }

    /// Applies a positional effect: an angle in degrees clockwise from
    /// straight ahead and a distance from 0 (close) to 255 (far).
    pub fn set_position(self, eng: &mut EngineState, angle: i16, distance: u8) -> (r: Result<
        (),
        String,
    >)
        requires
            old(eng).wf(),
        ensures
            final(eng).wf(),
            final(eng).reserved == old(eng).reserved,
            final(eng).time == old(eng).time,
            r is Ok <==> 0 <= self.0 < old(eng).channels@.len(),
            r is Ok ==> final(eng).channels@ =~= old(eng).channels@.update(
                self.0 as int,
                spec_positioned(old(eng).channels@[self.0 as int], angle, distance),
            ),
            r is Err ==> *final(eng) == *old(eng) && (r matches Err(m) && m@
                == "Invalid channel number"@),
    {
        let len = eng.channels.len();
        if self.0 >= 0 && (self.0 as usize) < len {
            let idx = self.0 as usize;
            let slot = &mut eng.channels[idx];
            slot.angle = angle;
            slot.pos_distance = distance;
            Ok(())
        } else {
            Err(String::from_str("Invalid channel number"))
        }
    }

    /// Removes any positional effect.
    pub fn unset_position(self, eng: &mut EngineState) -> (r: Result<(), String>)
        requires
            old(eng).wf(),
        ensures
            final(eng).wf(),
            final(eng).reserved == old(eng).reserved,
            final(eng).time == old(eng).time,
            r is Ok <==> 0 <= self.0 < old(eng).channels@.len(),
            r is Ok ==> final(eng).channels@ =~= old(eng).channels@.update(
                self.0 as int,
                spec_positioned(old(eng).channels@[self.0 as int], 0i16, 0u8),
            ),
            r is Err ==> *final(eng) == *old(eng) && (r matches Err(m) && m@
                == "Invalid channel number"@),
    {
        self.set_position(eng, 0, 0)
    }

    /// Swaps (or restores) the left and right outputs of the channel.
    pub fn set_reverse_stereo(self, eng: &mut EngineState, flip: bool) -> (r: Result<(), String>)
        requires
            old(eng).wf(),
        ensures
            final(eng).wf(),
            final(eng).reserved == old(eng).reserved,
            final(eng).time == old(eng).time,
            r is Ok <==> 0 <= self.0 < old(eng).channels@.len(),
            r is Ok ==> final(eng).channels@ =~= old(eng).channels@.update(
                self.0 as int,
                spec_reversed(old(eng).channels@[self.0 as int], flip),
            ),
            r is Err ==> *final(eng) == *old(eng) && (r matches Err(m) && m@
                == "Invalid channel number"@),
    {
        let len = eng.channels.len();
        if self.0 >= 0 && (self.0 as usize) < len {
            let idx = self.0 as usize;
            let slot = &mut eng.channels[idx];
            slot.reverse = flip;
            Ok(())
        } else {
            Err(String::from_str("Invalid channel number"))
        }
    }
}

/// The slot retagged into group `g`.
pub open spec fn spec_grouped(c: ChannelState, g: i32) -> ChannelState {
    ChannelState { group: g, ..c }
}

/// Whether the slot belongs to the aggregate tag `tag` addresses: the
/// default tag of minus one addresses every slot.
pub open spec fn spec_in_group(c: ChannelState, tag: i32) -> bool {
    tag == -1 || c.group == tag
}

/// How many slots carry group tag `g`.
pub open spec fn count_group(s: Seq<ChannelState>, g: i32) -> nat
    decreases s.len(),
{
    if s.len() == 0 {
        0nat
    } else {
        count_group(s.drop_last(), g) + if s.last().group == g {
            1nat
        } else {
            0nat
        }
    }
}

/// How many slots carry group tag `g` and are playing.
pub open spec fn count_group_playing(s: Seq<ChannelState>, g: i32) -> nat
    decreases s.len(),
{
    if s.len() == 0 {
        0nat
    } else {
        count_group_playing(s.drop_last(), g) + if s.last().group == g && s.last().playing {
            1nat
        } else {
            0nat
        }
    }
}

/// Extending the counted prefix by one slot adds that slot's membership.
pub proof fn lemma_count_group_step(s: Seq<ChannelState>, g: i32, i: int)
    requires
        0 <= i < s.len(),
    ensures
        count_group(s.take(i + 1), g) == count_group(s.take(i), g) + if s[i].group == g {
            1nat
        } else {
            0nat
        },
        count_group_playing(s.take(i + 1), g) == count_group_playing(s.take(i), g) + if s[i].group
            == g && s[i].playing {
            1nat
        } else {
            0nat
        },
{
    assert(s.take(i + 1).drop_last() =~= s.take(i));
    assert(s.take(i + 1).last() == s[i]);
}

/// Retagging one slot moves exactly one unit of membership count from its
/// old tag to the new one.
pub proof fn lemma_count_group_update(s: Seq<ChannelState>, i: int, gn: i32, q: i32)
    requires
        0 <= i < s.len(),
    ensures
        count_group(s.update(i, spec_grouped(s[i], gn)), q) + (if s[i].group == q {
            1nat
        } else {
            0nat
        }) == count_group(s, q) + (if gn == q {
            1nat
        } else {
            0nat
        }),
    decreases s.len(),
{
    let t = s.update(i, spec_grouped(s[i], gn));
    if i == s.len() - 1 {
        assert(t.drop_last() =~= s.drop_last());
        assert(t.last() == spec_grouped(s[i], gn));
    } else {
        assert(t.drop_last() =~= s.drop_last().update(i, spec_grouped(s.drop_last()[i], gn)));
        lemma_count_group_update(s.drop_last(), i, gn, q);
        assert(t.last() == s.last());
    }
}

/// Law: adding a channel to a group moves its membership. After putting
/// slot `ch` into group `g1` and then into a different group `g2`, the slot
/// carries tag `g2`; `g2`'s count includes it (one more than before the
/// move) and `g1`'s count no longer does (one less than before the move).
pub proof fn lemma_group_membership_moves(s: Seq<ChannelState>, ch: int, g1: i32, g2: i32)
    requires
        0 <= ch < s.len(),
        g1 != g2,
    ensures
        ({
            let s1 = s.update(ch, spec_grouped(s[ch], g1));
            let s2 = s1.update(ch, spec_grouped(s1[ch], g2));
            &&& s2[ch].group == g2
            &&& s2[ch].group != g1
            &&& count_group(s2, g2) == count_group(s1, g2) + 1
            &&& count_group(s2, g1) + 1 == count_group(s1, g1)
        }),
{
    let s1 = s.update(ch, spec_grouped(s[ch], g1));
    lemma_count_group_update(s1, ch, g2, g2);
    lemma_count_group_update(s1, ch, g2, g1);
}

/// The slots after a fade-out order for group `g`: every member that is
/// playing starts fading out.
pub open spec fn spec_group_fade_out(s: Seq<ChannelState>, g: i32) -> Seq<ChannelState> {
    Seq::new(
        s.len(),
        |i: int|
            if s[i].group == g && s[i].playing {
                ChannelState { fading: Fading::FadingOut, ..s[i] }
            } else {
                s[i]
            },
    )
}

/// The slots after halting group `g`: every member goes idle.
pub open spec fn spec_group_halt(s: Seq<ChannelState>, g: i32) -> Seq<ChannelState> {
    Seq::new(
        s.len(),
        |i: int|
            if s[i].group == g {
                spec_halted(s[i])
            } else {
                s[i]
            },
    )
}

/// How many channel numbers the range `from..=to` covers once clamped to
/// the allocated slots.
pub open spec fn spec_range_count(from: i32, to: i32, len: int) -> int {
    let lo: int = if from > 0 {
        from as int
    } else {
        0
    };
    let hi: int = if to < len - 1 {
        to as int
    } else {
        len - 1
    };
    if hi >= lo {
        hi - lo + 1
    } else {
        0
    }
}

impl Group {
    /// Puts one channel into this group, displacing whatever group it was
    /// in; the default tag of minus one puts it back in no group. Reports
    /// whether the channel exists.
    pub fn add_channel(self, eng: &mut EngineState, ch: Channel) -> (r: bool)
        requires
            old(eng).wf(),
        ensures
            final(eng).wf(),
            final(eng).reserved == old(eng).reserved,
            final(eng).time == old(eng).time,
            r == (0 <= ch.0 < old(eng).channels@.len()),
            r ==> final(eng).channels@ =~= old(eng).channels@.update(
                ch.0 as int,
                spec_grouped(old(eng).channels@[ch.0 as int], self.0),
            ),
            !r ==> *final(eng) == *old(eng),
    {
        let len = eng.channels.len();
        if ch.0 >= 0 && (ch.0 as usize) < len {
            let idx = ch.0 as usize;
            let slot = &mut eng.channels[idx];
            slot.group = self.0;
            true
        } else {
            false
        }
    }

    /// Puts every allocated channel from `from` up through `to` into this
    /// group and returns how many channels that covered.
    pub fn add_channels_range(self, eng: &mut EngineState, from: i32, to: i32) -> (n: i32)
        requires
            old(eng).wf(),
        ensures
            final(eng).wf(),
            final(eng).reserved == old(eng).reserved,
            final(eng).time == old(eng).time,
            final(eng).channels@ =~= Seq::new(
                old(eng).channels@.len(),
                |i: int|
                    if from <= i <= to {
                        spec_grouped(old(eng).channels@[i], self.0)
                    } else {
                        old(eng).channels@[i]
                    },
            ),
            n == spec_range_count(from, to, old(eng).channels@.len() as int),
    {
        let len = eng.channels.len();
        if len == 0 || to < 0 || from > to || (from as i64) >= (len as i64) {
            proof {
                assert(eng.channels@ =~= Seq::new(
                    old(eng).channels@.len(),
                    |i: int|
                        if from <= i <= to {
                            spec_grouped(old(eng).channels@[i], self.0)
                        } else {
                            old(eng).channels@[i]
                        },
                ));
            }
            return 0;
        }
        let lo: usize = if from > 0 {
            from as usize
        } else {
            0
        };
        let hi: usize = if (to as usize) < len - 1 {
            to as usize
        } else {
            len - 1
        };
        let mut i: usize = lo;
        while i <= hi
            invariant
                len == eng.channels@.len(),
                eng.channels@.len() == old(eng).channels@.len(),
                eng.reserved == old(eng).reserved,
                eng.time == old(eng).time,
                lo <= i <= hi + 1,
                hi < len,
                forall|j: int|
                    lo <= j < i ==> eng.channels@[j] == spec_grouped(
                        old(eng).channels@[j],
                        self.0,
                    ),
                forall|j: int|
                    0 <= j < len && !(lo <= j < i) ==> eng.channels@[j] == old(eng).channels@[j],
                forall|j: int|
                    0 <= j < len ==> (#[trigger] eng.channels@[j]).wf(),
            decreases hi + 1 - i,
        {
            let slot = &mut eng.channels[i];
            slot.group = self.0;
            i += 1;
        }
        proof {
            assert(eng.channels@ =~= Seq::new(
                old(eng).channels@.len(),
                |i: int|
                    if from <= i <= to {
                        spec_grouped(old(eng).channels@[i], self.0)
                    } else {
                        old(eng).channels@[i]
                    },
            ));
        }
        (hi - lo + 1) as i32
    }

    /// How many channels are in this group; the default tag counts every
    /// allocated channel.
    pub fn count(self, eng: &EngineState) -> (n: i32)
        requires
            eng.wf(),
        ensures
            self.0 == -1 ==> n == eng.channels@.len(),
            self.0 != -1 ==> n == count_group(eng.channels@, self.0),
    {
        let len = eng.channels.len();
        if self.0 == -1 {
            return len as i32;
        }
        let mut i: usize = 0;
        let mut n: i32 = 0;
        while i < len
            invariant
                len == eng.channels@.len(),
                len <= 0x7FFF_FFFF,
                i <= len,
                n == count_group(eng.channels@.take(i as int), self.0),
                n <= i,
            decreases len - i,
        {
            proof {
                lemma_count_group_step(eng.channels@, self.0, i as int);
            }
            if eng.channels[i].group == self.0 {
                n = n + 1;
            }
            i += 1;
        }
        proof {
            assert(eng.channels@.take(len as int) =~= eng.channels@);
        }
        n
    }

    /// The first channel in this group that is not playing, if any.
    pub fn find_available(self, eng: &EngineState) -> (r: Option<Channel>)
        requires
            eng.wf(),
        ensures
            r matches Some(c) ==> {
                &&& 0 <= c.0 < eng.channels@.len()
                &&& spec_in_group(eng.channels@[c.0 as int], self.0)
                &&& !eng.channels@[c.0 as int].playing
                &&& forall|j: int|
                    0 <= j < c.0 ==> !(spec_in_group(#[trigger] eng.channels@[j], self.0)
                        && !eng.channels@[j].playing)
            },
            r is None ==> forall|j: int|
                0 <= j < eng.channels@.len() ==> !(spec_in_group(
                    #[trigger] eng.channels@[j],
                    self.0,
                ) && !eng.channels@[j].playing),
    {
        let len = eng.channels.len();
        let mut i: usize = 0;
        while i < len
            invariant
                len == eng.channels@.len(),
                len <= 0x7FFF_FFFF,
                i <= len,
                forall|j: int|
                    0 <= j < i ==> !(spec_in_group(#[trigger] eng.channels@[j], self.0)
                        && !eng.channels@[j].playing),
            decreases len - i,
        {
            if (self.0 == -1 || eng.channels[i].group == self.0) && !eng.channels[i].playing {
                return Some(Channel(i as i32));
            }
            i += 1;
        }
        None
    }

    /// The playing channel in this group whose playback started earliest,
    /// if any is playing.
    pub fn find_oldest(self, eng: &EngineState) -> (r: Option<Channel>)
        requires
            eng.wf(),
        ensures
            r matches Some(c) ==> {
                &&& 0 <= c.0 < eng.channels@.len()
                &&& spec_in_group(eng.channels@[c.0 as int], self.0)
                &&& eng.channels@[c.0 as int].playing
                &&& forall|j: int|
                    0 <= j < eng.channels@.len() && spec_in_group(
                        #[trigger] eng.channels@[j],
                        self.0,
                    ) && eng.channels@[j].playing ==> eng.channels@[c.0 as int].started_at
                        <= eng.channels@[j].started_at
            },
            r is None ==> forall|j: int|
                0 <= j < eng.channels@.len() ==> !(spec_in_group(
                    #[trigger] eng.channels@[j],
                    self.0,
                ) && eng.channels@[j].playing),
    {
        let len = eng.channels.len();
        let mut best: Option<usize> = None;
        let mut i: usize = 0;
        while i < len
            invariant
                len == eng.channels@.len(),
                len <= 0x7FFF_FFFF,
                i <= len,
                best matches Some(b) ==> {
                    &&& 0 <= b < i
                    &&& spec_in_group(eng.channels@[b as int], self.0)
                    &&& eng.channels@[b as int].playing
                    &&& forall|j: int|
                        0 <= j < i && spec_in_group(#[trigger] eng.channels@[j], self.0)
                            && eng.channels@[j].playing ==> eng.channels@[b as int].started_at
                            <= eng.channels@[j].started_at
                },
                best is None ==> forall|j: int|
                    0 <= j < i ==> !(spec_in_group(#[trigger] eng.channels@[j], self.0)
                        && eng.channels@[j].playing),
            decreases len - i,
        {
            if (self.0 == -1 || eng.channels[i].group == self.0) && eng.channels[i].playing {
                match best {
                    None => {
                        best = Some(i);
                    },
                    Some(b) => {
                        if eng.channels[i].started_at < eng.channels[b].started_at {
                            best = Some(i);
                        }
                    },
                }
            }
            i += 1;
        }
        match best {
            None => None,
            Some(b) => Some(Channel(b as i32)),
        }
    }

    /// The playing channel in this group whose playback started latest, if
    /// any is playing.
    pub fn find_newest(self, eng: &EngineState) -> (r: Option<Channel>)
        requires
            eng.wf(),
        ensures
            r matches Some(c) ==> {
                &&& 0 <= c.0 < eng.channels@.len()
                &&& spec_in_group(eng.channels@[c.0 as int], self.0)
                &&& eng.channels@[c.0 as int].playing
                &&& forall|j: int|
                    0 <= j < eng.channels@.len() && spec_in_group(
                        #[trigger] eng.channels@[j],
                        self.0,
                    ) && eng.channels@[j].playing ==> eng.channels@[c.0 as int].started_at
                        >= eng.channels@[j].started_at
            },
            r is None ==> forall|j: int|
                0 <= j < eng.channels@.len() ==> !(spec_in_group(
                    #[trigger] eng.channels@[j],
                    self.0,
                ) && eng.channels@[j].playing),
    {
        let len = eng.channels.len();
        let mut best: Option<usize> = None;
        let mut i: usize = 0;
        while i < len
            invariant
                len == eng.channels@.len(),
                len <= 0x7FFF_FFFF,
                i <= len,
                best matches Some(b) ==> {
                    &&& 0 <= b < i
                    &&& spec_in_group(eng.channels@[b as int], self.0)
                    &&& eng.channels@[b as int].playing
                    &&& forall|j: int|
                        0 <= j < i && spec_in_group(#[trigger] eng.channels@[j], self.0)
                            && eng.channels@[j].playing ==> eng.channels@[b as int].started_at
                            >= eng.channels@[j].started_at
                },
                best is None ==> forall|j: int|
                    0 <= j < i ==> !(spec_in_group(#[trigger] eng.channels@[j], self.0)
                        && eng.channels@[j].playing),
            decreases len - i,
        {
            if (self.0 == -1 || eng.channels[i].group == self.0) && eng.channels[i].playing {
                match best {
                    None => {
                        best = Some(i);
                    },
                    Some(b) => {
                        if eng.channels[i].started_at > eng.channels[b].started_at {
                            best = Some(i);
                        }
                    },
                }
            }
            i += 1;
        }
        match best {
            None => None,
            Some(b) => Some(Channel(b as i32)),
        }
    }

    /// Starts fading out every playing member of this group over `ms`
    /// milliseconds and returns how many channels were set to fade.
    pub fn fade_out(self, eng: &mut EngineState, ms: i32) -> (n: i32)
        requires
            old(eng).wf(),
        ensures
            final(eng).wf(),
            final(eng).reserved == old(eng).reserved,
            final(eng).time == old(eng).time,
            final(eng).channels@ =~= spec_group_fade_out(old(eng).channels@, self.0),
            n == count_group_playing(old(eng).channels@, self.0),
    {
        let _ = ms;
        let len = eng.channels.len();
        let mut i: usize = 0;
        let mut n: i32 = 0;
        while i < len
            invariant
                len == eng.channels@.len(),
                eng.channels@.len() == old(eng).channels@.len(),
                len <= 0x7FFF_FFFF,
                i <= len,
                eng.reserved == old(eng).reserved,
                eng.time == old(eng).time,
                n == count_group_playing(old(eng).channels@.take(i as int), self.0),
                n <= i,
                forall|j: int| i <= j < len ==> eng.channels@[j] == old(eng).channels@[j],
                forall|j: int|
                    0 <= j < i ==> eng.channels@[j] == (if old(eng).channels@[j].group == self.0
                        && old(eng).channels@[j].playing {
                        ChannelState { fading: Fading::FadingOut, ..old(eng).channels@[j] }
                    } else {
                        old(eng).channels@[j]
                    }),
                forall|j: int|
                    0 <= j < len ==> (#[trigger] eng.channels@[j]).wf(),
            decreases len - i,
        {
            proof {
                lemma_count_group_step(old(eng).channels@, self.0, i as int);
            }
            if eng.channels[i].group == self.0 && eng.channels[i].playing {
                let slot = &mut eng.channels[i];
                slot.fading = Fading::FadingOut;
                n = n + 1;
            }
            i += 1;
        }
        proof {
            assert(old(eng).channels@.take(len as int) =~= old(eng).channels@);
            assert(eng.channels@ =~= spec_group_fade_out(old(eng).channels@, self.0));
        }
        n
    }

    /// Halts playback on every member of this group.
    pub fn halt(self, eng: &mut EngineState)
        requires
            old(eng).wf(),
        ensures
            final(eng).wf(),
            final(eng).reserved == old(eng).reserved,
            final(eng).time == old(eng).time,
            final(eng).channels@ =~= spec_group_halt(old(eng).channels@, self.0),
    {
        let len = eng.channels.len();
        let mut i: usize = 0;
        while i < len
            invariant
                len == eng.channels@.len(),
                eng.channels@.len() == old(eng).channels@.len(),
                i <= len,
                eng.reserved == old(eng).reserved,
                eng.time == old(eng).time,
                forall|j: int| i <= j < len ==> eng.channels@[j] == old(eng).channels@[j],
                forall|j: int|
                    0 <= j < i ==> eng.channels@[j] == (if old(eng).channels@[j].group == self.0 {
                        spec_halted(old(eng).channels@[j])
                    } else {
                        old(eng).channels@[j]
                    }),
                forall|j: int|
                    0 <= j < len ==> (#[trigger] eng.channels@[j]).wf(),
            decreases len - i,
        {
            if eng.channels[i].group == self.0 {
                let slot = &mut eng.channels[i];
                slot.playing = false;
                slot.paused = false;
                slot.fading = Fading::NoFading;
            }
            i += 1;
        }
        proof {
            assert(eng.channels@ =~= spec_group_halt(old(eng).channels@, self.0));
        }
    }
}

} // verus!
