//! Music-stream wrappers and the model of the single music playback slot.

use vstd::prelude::*;
use vstd::string::StringExecFns;
use crate::channel::Fading;

verus! {

/// The file-format encoding of a music stream.
#[derive(Debug, Copy, Clone, PartialEq, Eq, Structural, Hash)]
pub enum MusicType {
    /// No music, or an unrecognised format.
    MusicNone,
    /// An external command-line player.
    MusicCmd,
    /// Waveform audio.
    MusicWav,
    /// Module formats.
    MusicMod,
    /// MIDI.
    MusicMid,
    /// Ogg Vorbis.
    MusicOgg,
    /// MP3.
    MusicMp3,
    /// MP3 through the MAD decoder.
    MusicMp3Mad,
    /// FLAC.
    MusicFlac,
    /// Module formats through MODPlug.
    MusicModPlug,
}

/// The music type the engine's raw answer denotes, in the engine's own
/// numbering; unknown codes mean no music.
pub open spec fn spec_music_type_from_raw(raw: u32) -> MusicType {
    if raw == 1 {
        MusicType::MusicCmd
    } else if raw == 2 {
        MusicType::MusicWav
    } else if raw == 3 {
        MusicType::MusicMod
    } else if raw == 4 {
        MusicType::MusicMid
    } else if raw == 5 {
        MusicType::MusicOgg
    } else if raw == 6 {
        MusicType::MusicMp3
    } else if raw == 7 {
        MusicType::MusicMp3Mad
    } else if raw == 8 {
        MusicType::MusicFlac
    } else if raw == 9 {
        MusicType::MusicModPlug
    } else {
        MusicType::MusicNone
    }
}

/// Maps the engine's raw music-type answer to its meaning.
pub fn music_type_from_raw(raw: u32) -> (t: MusicType)
    ensures
        t == spec_music_type_from_raw(raw),
{
    if raw == 1 {
        MusicType::MusicCmd
    } else if raw == 2 {
        MusicType::MusicWav
    } else if raw == 3 {
        MusicType::MusicMod
    } else if raw == 4 {
        MusicType::MusicMid
    } else if raw == 5 {
        MusicType::MusicOgg
    } else if raw == 6 {
        MusicType::MusicMp3
    } else if raw == 7 {
        MusicType::MusicMp3Mad
    } else if raw == 8 {
        MusicType::MusicFlac
    } else if raw == 9 {
        MusicType::MusicModPlug
    } else {
        MusicType::MusicNone
    }
}

/// The state of the single music playback slot.
pub struct MusicState {
    /// Whether a stream is playing.
    pub playing: bool,
    /// Whether playback is paused.
    pub paused: bool,
    /// The stream's fade state.
    pub fading: Fading,
    /// The music volume on the zero-to-maximum scale.
    pub volume: i32,
}

impl MusicState {
    /// Music volume stays on the engine's zero-to-maximum scale.
    pub open spec fn wf(self) -> bool {
        0 <= self.volume <= 128
    }

    /// The initial state: nothing playing, full volume.
    pub fn new() -> (r: MusicState)
        ensures
            r.wf(),
            !r.playing,
            !r.paused,
            r.fading == Fading::NoFading,
            r.volume == 128,
    {
        MusicState { playing: false, paused: false, fading: Fading::NoFading, volume: 128 }
    }
}

/// A music stream: the engine-side handle (zero is the null handle) plus
/// this wrapper's ownership flag; the owning wrapper frees the handle on
/// destruction.
#[derive(Debug, PartialEq, Eq, Structural)]
pub struct Music {
    /// The engine's handle for the loaded stream.
    pub raw: u64,
    /// Whether destruction of this wrapper must free the handle.
    pub owned: bool,
}

impl Music {
    /// Decides what loading a music file returns, given the handle the
    /// engine produced: the null handle reports the engine's error text;
    /// any other handle becomes an owned wrapper.
    pub fn from_loaded(raw: u64, engine_error: String) -> (r: Result<Music, String>)
        ensures
            r is Ok <==> raw != 0,
            raw != 0 ==> (r matches Ok(m) && m.raw == raw && m.owned),
            raw == 0 ==> (r matches Err(m) && m@ == engine_error@),
    {
        if raw == 0 {
            Err(engine_error)
        } else {
            Ok(Music { raw, owned: true })
        }
    }

    /// The destruction decision: the native handle is freed exactly when
    /// this wrapper owns it.
    pub fn should_free(&self) -> (r: bool)
        ensures
            r == self.owned,
    {
        self.owned
    }

    /// The file format of this stream, from the engine's raw type answer.
    pub fn get_type(&self, raw_type: u32) -> (t: MusicType)
        ensures
            t == spec_music_type_from_raw(raw_type),
    {
        music_type_from_raw(raw_type)
    }

    /// Starts the loaded stream: playing from the top, not paused, no fade.
    pub fn play(&self, st: &mut MusicState, loops: i32) -> (r: Result<(), String>)
        requires
            old(st).wf(),
        ensures
            final(st).wf(),
            r is Ok,
            final(st).playing,
            !final(st).paused,
            final(st).fading == Fading::NoFading,
            final(st).volume == old(st).volume,
    {
        let _ = loops;
        st.playing = true;
        st.paused = false;
        st.fading = Fading::NoFading;
        Ok(())
    }

    /// Starts the loaded stream fading in over `ms` milliseconds.
    pub fn fade_in(&self, st: &mut MusicState, loops: i32, ms: i32) -> (r: Result<(), String>)
        requires
            old(st).wf(),
        ensures
            final(st).wf(),
            r is Ok,
            final(st).playing,
            !final(st).paused,
            final(st).fading == Fading::FadingIn,
            final(st).volume == old(st).volume,
    {
        let _ = loops;
        let _ = ms;
        st.playing = true;
        st.paused = false;
        st.fading = Fading::FadingIn;
        Ok(())
    }

    /// The current music volume.
    pub fn get_volume(st: &MusicState) -> (r: i32)
        ensures
            r == st.volume,
    {
        st.volume
    }

    /// Sets the music volume; values above the maximum use the maximum, and
    /// a negative value changes nothing.
    pub fn set_volume(st: &mut MusicState, volume: i32)
        requires
            old(st).wf(),
        ensures
            final(st).wf(),
            final(st).playing == old(st).playing,
            final(st).paused == old(st).paused,
            final(st).fading == old(st).fading,
            volume < 0 ==> final(st).volume == old(st).volume,
            0 <= volume <= 128 ==> final(st).volume == volume,
            volume > 128 ==> final(st).volume == 128,
    {
        if volume >= 0 {
            if volume > 128 {
                st.volume = 128;
            } else {
                st.volume = volume;
            }
        }
    }

    /// Pauses music playback.
    pub fn pause(st: &mut MusicState)
        requires
            old(st).wf(),
        ensures
            final(st).wf(),
            *final(st) == (MusicState { paused: true, ..*old(st) }),
    {
        st.paused = true;
    }

    /// Resumes paused music playback.
    pub fn resume(st: &mut MusicState)
        requires
            old(st).wf(),
        ensures
            final(st).wf(),
            *final(st) == (MusicState { paused: false, ..*old(st) }),
    {
        st.paused = false;
    }

    /// Halts music playback outright.
    pub fn halt(st: &mut MusicState)
        requires
            old(st).wf(),
        ensures
            final(st).wf(),
            !final(st).playing,
            !final(st).paused,
            final(st).fading == Fading::NoFading,
            final(st).volume == old(st).volume,
    {
        st.playing = false;
        st.paused = false;
        st.fading = Fading::NoFading;
    }

    /// Begins fading the music out over `ms` milliseconds; fails when no
    /// music is playing to fade.
    pub fn fade_out(st: &mut MusicState, ms: i32) -> (r: Result<(), String>)
        requires
            old(st).wf(),
        ensures
            final(st).wf(),
            r is Ok <==> old(st).playing,
            old(st).playing ==> *final(st) == (MusicState {
                fading: Fading::FadingOut,
                ..*old(st)
            }),
            !old(st).playing ==> *final(st) == *old(st) && (r matches Err(m) && m@
                == "Music isn't playing"@),
    {
        let _ = ms;
        if st.playing {
            st.fading = Fading::FadingOut;
            Ok(())
        } else {
            Err(String::from_str("Music isn't playing"))
        }
    }

    /// Whether music is actively playing.
    pub fn is_playing(st: &MusicState) -> (r: bool)
        ensures
            r == st.playing,
    {
        st.playing
    }

    /// Whether music playback is paused.
    pub fn is_paused(st: &MusicState) -> (r: bool)
        ensures
            r == st.paused,
    {
        st.paused
    }

    /// The music stream's fade state.
    pub fn get_fading(st: &MusicState) -> (r: Fading)
        ensures
            r == st.fading,
    {
        st.fading
    }
}

} // verus!
