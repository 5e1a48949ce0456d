use mixer::flags::{
    init_outcome, InitFlag, INIT_FLAC, INIT_FLUIDSYNTH, INIT_MOD, INIT_MODPLUG, INIT_MP3, INIT_OGG,
};

#[test]
fn flag_bits_are_distinct() {
    let all = [INIT_FLAC, INIT_MOD, INIT_MODPLUG, INIT_MP3, INIT_OGG, INIT_FLUIDSYNTH];
    for (i, a) in all.iter().enumerate() {
        assert_eq!(a.count_ones(), 1);
        for b in all.iter().skip(i + 1) {
            assert_eq!(a & b, 0);
        }
    }
}

#[test]
fn contains_and_intersects() {
    let set = InitFlag(INIT_FLAC | INIT_MP3);
    assert!(set.contains(InitFlag(INIT_FLAC)));
    assert!(set.contains(InitFlag(INIT_MP3)));
    assert!(set.contains(set));
    assert!(!set.contains(InitFlag(INIT_OGG)));
    assert!(set.intersects(InitFlag(INIT_MP3 | INIT_OGG)));
    assert!(!set.intersects(InitFlag(INIT_OGG)));
    assert!(!InitFlag(0).intersects(set));
}

#[test]
fn union_and_difference() {
    let a = InitFlag(INIT_FLAC | INIT_MP3);
    let b = InitFlag(INIT_MP3 | INIT_OGG);
    assert_eq!(a.union(b).bits(), INIT_FLAC | INIT_MP3 | INIT_OGG);
    assert_eq!(a.difference(b).bits(), INIT_FLAC);
    assert!(InitFlag(0).is_empty());
    assert!(!a.is_empty());
}

#[test]
fn to_string_lists_each_flag_in_order() {
    assert_eq!(InitFlag(0).to_string(), "");
    assert_eq!(InitFlag(INIT_FLAC).to_string(), "INIT_FLAC ");
    assert_eq!(InitFlag(INIT_MP3).to_string(), "INIT_MP3 ");
    assert_eq!(
        InitFlag(INIT_FLAC | INIT_MP3 | INIT_FLUIDSYNTH).to_string(),
        "INIT_FLAC INIT_MP3 INIT_FLUIDSYNTH "
    );
    assert_eq!(
        InitFlag(INIT_FLAC | INIT_MOD | INIT_MODPLUG | INIT_MP3 | INIT_OGG | INIT_FLUIDSYNTH)
            .to_string(),
        "INIT_FLAC INIT_MOD INIT_MODPLUG INIT_MP3 INIT_OGG INIT_FLUIDSYNTH "
    );
}

#[test]
fn init_succeeds_when_all_requested_flags_load() {
    let r = init_outcome(
        InitFlag(INIT_FLAC | INIT_MP3),
        InitFlag(INIT_FLAC | INIT_MP3),
        String::new(),
    );
    assert!(r.is_ok());
}

#[test]
fn init_succeeds_when_engine_reports_extra_flags() {
    let r = init_outcome(
        InitFlag(INIT_MP3),
        InitFlag(INIT_FLAC | INIT_MP3 | INIT_OGG),
        String::new(),
    );
    assert!(r.is_ok());
}

#[test]
fn partial_init_reports_missing_flags_when_engine_text_is_empty() {
    // Requesting {FLAC, MOD, MP3} with only {FLAC, MOD} available must fail
    // and must name the missing capability even with no engine error text.
    let r = init_outcome(
        InitFlag(INIT_FLAC | INIT_MOD | INIT_MP3),
        InitFlag(INIT_FLAC | INIT_MOD),
        String::new(),
    );
    let msg = r.err().unwrap();
    assert_eq!(msg, "Could not init: INIT_MP3 ");
    assert!(msg.contains("INIT_MP3"));
}

#[test]
fn partial_init_prefers_engine_error_text() {
    let r = init_outcome(
        InitFlag(INIT_FLAC | INIT_MP3),
        InitFlag(INIT_FLAC),
        String::from("no mp3 support"),
    );
    assert_eq!(r.err().unwrap(), "no mp3 support");
}

#[test]
fn empty_request_always_succeeds() {
    assert!(init_outcome(InitFlag(0), InitFlag(0), String::new()).is_ok());
}
