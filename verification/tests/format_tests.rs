use mixer::format::{
    buffer_elements, open_audio_outcome, query_spec_outcome, sample_width, AUDIO_F32, AUDIO_S16,
    AUDIO_S16MSB, AUDIO_S32, AUDIO_S8, AUDIO_U16LSB, AUDIO_U8, DEFAULT_FORMAT,
};

#[test]
fn sample_widths_follow_the_format_code() {
    assert_eq!(sample_width(AUDIO_U8), 1);
    assert_eq!(sample_width(AUDIO_S8), 1);
    assert_eq!(sample_width(AUDIO_U16LSB), 2);
    assert_eq!(sample_width(AUDIO_S16), 2);
    assert_eq!(sample_width(AUDIO_S16MSB), 2);
    assert_eq!(sample_width(AUDIO_S32), 4);
    assert_eq!(sample_width(AUDIO_F32), 4);
    assert_eq!(sample_width(DEFAULT_FORMAT), 2);
}

#[test]
fn a_16_bit_buffer_of_2048_bytes_holds_1024_elements() {
    assert_eq!(buffer_elements(2048, AUDIO_S16), Some(1024));
}

#[test]
fn buffer_elements_rejects_lengths_off_the_sample_grid() {
    assert_eq!(buffer_elements(2047, AUDIO_S16), None);
    assert_eq!(buffer_elements(2046, AUDIO_S32), None);
    assert_eq!(buffer_elements(0, AUDIO_S16), Some(0));
    assert_eq!(buffer_elements(7, AUDIO_U8), Some(7));
    assert_eq!(buffer_elements(64, 0), None);
}

#[test]
fn open_audio_outcome_maps_return_codes() {
    assert_eq!(open_audio_outcome(0, String::from("unused")), Ok(()));
    assert_eq!(
        open_audio_outcome(-1, String::from("device busy")),
        Err(String::from("device busy"))
    );
}

#[test]
fn query_spec_outcome_maps_return_codes() {
    assert_eq!(
        query_spec_outcome(1, 44100, AUDIO_S16, 2, String::from("unused")),
        Ok((44100, AUDIO_S16, 2))
    );
    assert_eq!(
        query_spec_outcome(0, 0, 0, 0, String::from("device not open")),
        Err(String::from("device not open"))
    );
}
