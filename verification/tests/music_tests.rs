use mixer::channel::{fading_from_raw, Fading};
use mixer::chunk::Chunk;
use mixer::music::{music_type_from_raw, Music, MusicState, MusicType};

#[test]
fn fading_codes_map_exactly() {
    assert_eq!(fading_from_raw(0), Fading::NoFading);
    assert_eq!(fading_from_raw(1), Fading::FadingOut);
    assert_eq!(fading_from_raw(2), Fading::FadingIn);
    assert_eq!(fading_from_raw(99), Fading::NoFading);
}

#[test]
fn music_type_codes_map_exactly() {
    assert_eq!(music_type_from_raw(0), MusicType::MusicNone);
    assert_eq!(music_type_from_raw(1), MusicType::MusicCmd);
    assert_eq!(music_type_from_raw(2), MusicType::MusicWav);
    assert_eq!(music_type_from_raw(3), MusicType::MusicMod);
    assert_eq!(music_type_from_raw(4), MusicType::MusicMid);
    assert_eq!(music_type_from_raw(5), MusicType::MusicOgg);
    assert_eq!(music_type_from_raw(6), MusicType::MusicMp3);
    assert_eq!(music_type_from_raw(7), MusicType::MusicMp3Mad);
    assert_eq!(music_type_from_raw(8), MusicType::MusicFlac);
    assert_eq!(music_type_from_raw(9), MusicType::MusicModPlug);
    assert_eq!(music_type_from_raw(1000), MusicType::MusicNone);
}

#[test]
fn loading_music_maps_the_null_handle_to_the_error_text() {
    let err = Music::from_loaded(0, String::from("unsupported format"));
    assert_eq!(err.err().unwrap(), "unsupported format");
    let ok = Music::from_loaded(11, String::new()).ok().unwrap();
    assert_eq!(ok.raw, 11);
    assert!(ok.should_free());
    assert_eq!(ok.get_type(5), MusicType::MusicOgg);
}

#[test]
fn loading_chunks_maps_the_null_handle_to_the_error_text() {
    let err = Chunk::from_loaded(0, String::from("corrupt wav"));
    assert_eq!(err.err().unwrap(), "corrupt wav");
    let ok = Chunk::from_loaded(4, String::new()).ok().unwrap();
    assert_eq!(ok.raw, 4);
    assert!(ok.should_free());
    assert_eq!(ok.get_volume(), 128);
    assert_eq!(Chunk::from_query(0), None);
    let view = Chunk::from_query(4).unwrap();
    assert!(!view.should_free());
}

#[test]
fn chunk_volume_clamps_and_reports_the_previous_value() {
    let mut c = Chunk::from_loaded(4, String::new()).ok().unwrap();
    assert_eq!(c.set_volume(90), 128);
    assert_eq!(c.set_volume(500), 90);
    assert_eq!(c.get_volume(), 128);
    assert_eq!(c.set_volume(-1), 128);
    assert_eq!(c.get_volume(), 128);
}

#[test]
fn music_playback_state_machine() {
    let music = Music::from_loaded(2, String::new()).ok().unwrap();
    let mut st = MusicState::new();
    assert!(!Music::is_playing(&st));
    music.play(&mut st, 0).unwrap();
    assert!(Music::is_playing(&st));
    assert_eq!(Music::get_fading(&st), Fading::NoFading);
    Music::pause(&mut st);
    assert!(Music::is_paused(&st));
    Music::resume(&mut st);
    assert!(!Music::is_paused(&st));
    Music::halt(&mut st);
    assert!(!Music::is_playing(&st));
}

#[test]
fn music_fade_out_needs_something_playing() {
    let music = Music::from_loaded(2, String::new()).ok().unwrap();
    let mut st = MusicState::new();
    assert_eq!(
        Music::fade_out(&mut st, 100),
        Err(String::from("Music isn't playing"))
    );
    music.fade_in(&mut st, 0, 50).unwrap();
    assert_eq!(Music::get_fading(&st), Fading::FadingIn);
    assert_eq!(Music::fade_out(&mut st, 100), Ok(()));
    assert_eq!(Music::get_fading(&st), Fading::FadingOut);
}

#[test]
fn music_volume_clamps() {
    let mut st = MusicState::new();
    assert_eq!(Music::get_volume(&st), 128);
    Music::set_volume(&mut st, 60);
    assert_eq!(Music::get_volume(&st), 60);
    Music::set_volume(&mut st, 300);
    assert_eq!(Music::get_volume(&st), 128);
    Music::set_volume(&mut st, -3);
    assert_eq!(Music::get_volume(&st), 128);
}
