use mixer::channel::Channel;
use mixer::effects::{
    bytes_to_samples_s16, marshal_buffer_s16, s16_from_le, samples_to_bytes_s16, ChannelEffects,
    EffectCallback,
};

/// A transform that records how it was invoked and doubles every sample.
struct Recorder {
    calls: u32,
    last_len: usize,
}

impl EffectCallback for Recorder {
    type SampleType = i16;

    fn callback(&mut self, buffer: &mut Vec<i16>) {
        self.calls += 1;
        self.last_len = buffer.len();
        for s in buffer.iter_mut() {
            *s = s.wrapping_mul(2);
        }
    }
}

#[test]
fn registered_transform_processes_each_tick() {
    let mut fx: ChannelEffects<Recorder> = ChannelEffects::new();
    let token = fx
        .register(true, Recorder { calls: 0, last_len: 0 })
        .ok()
        .unwrap();
    assert_eq!(token, 0);
    let mut buf: Vec<i16> = vec![1, 2, 3];
    fx.mix_tick(&mut buf);
    assert_eq!(buf, vec![2, 4, 6]);
    assert_eq!(fx.slots[0].transform.calls, 1);
    assert_eq!(fx.slots[0].transform.last_len, 3);
    fx.mix_tick(&mut buf);
    assert_eq!(fx.slots[0].transform.calls, 2);
}

#[test]
fn refused_registration_returns_the_transform() {
    let mut fx: ChannelEffects<Recorder> = ChannelEffects::new();
    let r = fx.register(false, Recorder { calls: 7, last_len: 0 });
    let returned = r.err().unwrap();
    assert_eq!(returned.calls, 7);
    assert_eq!(fx.slots.len(), 0);
}

#[test]
fn register_then_unregister_without_tick_never_processes() {
    // A registration removed before any mixing tick must not have had its
    // per-buffer trampoline run even once.
    let mut fx: ChannelEffects<Recorder> = ChannelEffects::new();
    fx.register(true, Recorder { calls: 0, last_len: 0 })
        .ok()
        .unwrap();
    let removed = fx.remove_all();
    assert_eq!(removed, 1);
    assert_eq!(fx.slots[0].transform.calls, 0);
    let mut buf: Vec<i16> = vec![5; 8];
    fx.mix_tick(&mut buf);
    assert_eq!(fx.slots[0].transform.calls, 0);
    assert_eq!(buf, vec![5; 8]);
}

#[test]
fn removal_runs_exactly_once_per_registration() {
    // Whatever triggers removal first consumes the registration; a second
    // removal event finds nothing left to remove.
    let mut fx: ChannelEffects<Recorder> = ChannelEffects::new();
    fx.register(true, Recorder { calls: 0, last_len: 0 })
        .ok()
        .unwrap();
    fx.register(true, Recorder { calls: 0, last_len: 0 })
        .ok()
        .unwrap();
    assert_eq!(fx.remove_all(), 2);
    assert_eq!(fx.remove_all(), 0);
    assert_eq!(fx.remove_all(), 0);
}

#[test]
fn channel_register_and_unregister_entry_points() {
    let mut fx: ChannelEffects<Recorder> = ChannelEffects::new();
    let ch = Channel(3);
    let r = ch.register_effect(
        &mut fx,
        true,
        Recorder { calls: 0, last_len: 0 },
        String::new(),
    );
    assert_eq!(r, Ok(()));
    assert_eq!(ch.unregister_all_effects(&mut fx), Ok(()));
    assert_eq!(
        ch.unregister_all_effects(&mut fx),
        Err(String::from("No such effect registered"))
    );
    let refused = ch.register_effect(
        &mut fx,
        false,
        Recorder { calls: 0, last_len: 0 },
        String::from("engine rejected the effect"),
    );
    assert_eq!(refused, Err(String::from("engine rejected the effect")));
}

#[test]
fn le_sample_decoding_is_exact() {
    assert_eq!(s16_from_le(0x01, 0x02), 0x0201);
    assert_eq!(s16_from_le(0xFF, 0xFF), -1);
    assert_eq!(s16_from_le(0x00, 0x80), i16::MIN);
    assert_eq!(s16_from_le(0xFF, 0x7F), i16::MAX);
}

#[test]
fn byte_sample_round_trip() {
    let bytes: Vec<u8> = vec![0x01, 0x02, 0xFF, 0xFF, 0x00, 0x80];
    let samples = bytes_to_samples_s16(&bytes);
    assert_eq!(samples, vec![0x0201, -1, i16::MIN]);
    assert_eq!(samples_to_bytes_s16(&samples), bytes);
}

#[test]
fn a_2048_byte_buffer_presents_1024_elements_to_the_transform() {
    // The buffer-length scenario: a 16-bit output format and a raw mixing
    // buffer of 2048 bytes must present exactly 1024 sample elements.
    let mut fx: ChannelEffects<Recorder> = ChannelEffects::new();
    fx.register(true, Recorder { calls: 0, last_len: 0 })
        .ok()
        .unwrap();
    let mut bytes: Vec<u8> = vec![0x01, 0x00].repeat(1024);
    assert_eq!(bytes.len(), 2048);
    let presented = marshal_buffer_s16(&mut fx, &mut bytes);
    assert_eq!(presented, 1024);
    assert_eq!(fx.slots[0].transform.last_len, 1024);
    assert_eq!(fx.slots[0].transform.calls, 1);
    assert_eq!(bytes.len(), 2048);
    assert_eq!(&bytes[0..2], &[0x02, 0x00]);
}
