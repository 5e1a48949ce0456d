//! Output sample formats, their widths, and the outcomes of opening and
//! querying the audio device.

use vstd::prelude::*;

verus! {

/// A sample-format code: the low byte holds the sample size in bits, the
/// high bits hold signedness, endianness and float markers.
pub type AudioFormat = u16;

/// Unsigned 8-bit samples.
pub const AUDIO_U8: AudioFormat = 0x0008;
/// Signed 8-bit samples.
pub const AUDIO_S8: AudioFormat = 0x8008;
/// Unsigned 16-bit samples, little-endian.
pub const AUDIO_U16LSB: AudioFormat = 0x0010;
/// Signed 16-bit samples, little-endian.
pub const AUDIO_S16LSB: AudioFormat = 0x8010;
/// Unsigned 16-bit samples, big-endian.
pub const AUDIO_U16MSB: AudioFormat = 0x1010;
/// Signed 16-bit samples, big-endian.
pub const AUDIO_S16MSB: AudioFormat = 0x9010;
/// Unsigned 16-bit samples in host byte order.
pub const AUDIO_U16: AudioFormat = AUDIO_U16LSB;
/// Signed 16-bit samples in host byte order.
pub const AUDIO_S16: AudioFormat = AUDIO_S16LSB;
/// Signed 32-bit samples, little-endian.
pub const AUDIO_S32LSB: AudioFormat = 0x8020;
/// Signed 32-bit samples, big-endian.
pub const AUDIO_S32MSB: AudioFormat = 0x9020;
/// Signed 32-bit samples in host byte order.
pub const AUDIO_S32: AudioFormat = AUDIO_S32LSB;
/// 32-bit float samples, little-endian.
pub const AUDIO_F32LSB: AudioFormat = 0x8120;
/// 32-bit float samples, big-endian.
pub const AUDIO_F32MSB: AudioFormat = 0x9120;
/// 32-bit float samples in host byte order.
pub const AUDIO_F32: AudioFormat = AUDIO_F32LSB;
/// Unsigned 16-bit samples in system byte order.
pub const AUDIO_U16SYS: AudioFormat = AUDIO_U16LSB;
/// Signed 16-bit samples in system byte order.
pub const AUDIO_S16SYS: AudioFormat = AUDIO_S16LSB;
/// Signed 32-bit samples in system byte order.
pub const AUDIO_S32SYS: AudioFormat = AUDIO_S32LSB;
/// 32-bit float samples in system byte order.
pub const AUDIO_F32SYS: AudioFormat = AUDIO_F32LSB;

/// The suggested default: signed 16-bit samples in host byte order.
pub const DEFAULT_FORMAT: AudioFormat = AUDIO_S16SYS;

/// The width in bytes of one sample of the given format.
pub open spec fn spec_sample_width(format: AudioFormat) -> nat {
    (((format & 0xFF) / 8) as nat)
}

/// Computes the byte width of one sample from the format code's size bits.
pub fn sample_width(format: AudioFormat) -> (w: usize)
    ensures
        w == spec_sample_width(format),
{
    ((format & 0xFF) / 8) as usize
}

/// Reslices a raw buffer length into a sample-element count: the number of
/// whole samples a mixing buffer of `byte_len` bytes holds in `format`.
///
/// A byte length that is not a multiple of the sample width (or a malformed
/// format with zero width) yields `None`; the engine never produces such a
/// buffer when configured consistently, and the caller must treat it as
/// fatal rather than guess a length.
pub fn buffer_elements(byte_len: usize, format: AudioFormat) -> (r: Option<usize>)
    ensures
        spec_sample_width(format) == 0 ==> r is None,
        spec_sample_width(format) > 0 && byte_len % (spec_sample_width(format) as usize) != 0
            ==> r is None,
        spec_sample_width(format) > 0 && byte_len % (spec_sample_width(format) as usize) == 0
            ==> r == Some((byte_len / spec_sample_width(format) as usize) as usize),
{
    let width = sample_width(format);
    if width == 0 {
        None
    } else if byte_len % width != 0 {
        None
    } else {
        Some(byte_len / width)
    }
}

/// Decides what opening the audio device returns, given the engine's return
/// code: zero is success, anything else reports the engine's error text.
pub fn open_audio_outcome(ret: i32, engine_error: String) -> (r: Result<(), String>)
    ensures
        r is Ok <==> ret == 0,
        ret != 0 ==> (r matches Err(m) && m@ == engine_error@),
{
    if ret == 0 {
        Ok(())
    } else {
        Err(engine_error)
    }
}

/// Decides what a device-format query returns: a zero return code means the
/// device is not open and reports the engine's error text; otherwise the
/// queried frequency, format and channel count are handed back unchanged.
pub fn query_spec_outcome(
    ret: i32,
    frequency: i32,
    format: AudioFormat,
    channels: i32,
    engine_error: String,
) -> (r: Result<(i32, AudioFormat, i32), String>)
    ensures
        r is Ok <==> ret != 0,
        ret != 0 ==> r == Ok::<(i32, AudioFormat, i32), String>((frequency, format, channels)),
        ret == 0 ==> (r matches Err(m) && m@ == engine_error@),
{
    if ret == 0 {
        Err(engine_error)
    } else {
        Ok((frequency, format, channels))
    }
}

} // verus!
