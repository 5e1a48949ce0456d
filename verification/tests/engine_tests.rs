use mixer::channel::{channel, Channel, Fading};
use mixer::chunk::Chunk;
use mixer::engine::EngineState;
use mixer::group::Group;

fn chunk(raw: u64) -> Chunk {
    Chunk::from_loaded(raw, String::new()).ok().unwrap()
}

#[test]
fn channel_handles() {
    assert_eq!(channel(5), Channel(5));
    assert_eq!(Channel::all(), Channel(-1));
    assert_eq!(Channel::post(), Channel(-2));
}

#[test]
fn allocation_grows_shrinks_and_queries() {
    let mut eng = EngineState::new();
    assert_eq!(eng.allocate_channels(4), 4);
    assert_eq!(eng.allocate_channels(-1), 4);
    assert_eq!(eng.allocate_channels(2), 2);
    assert_eq!(eng.allocate_channels(-1), 2);
}

#[test]
fn reservation_is_clamped_to_the_allocation() {
    let mut eng = EngineState::new();
    eng.allocate_channels(3);
    assert_eq!(eng.reserve_channels(2), 2);
    assert_eq!(eng.reserve_channels(10), 3);
    assert_eq!(eng.reserve_channels(0), 0);
    assert_eq!(eng.reserve_channels(-5), 0);
}

#[test]
fn broadcast_play_picks_the_first_free_unreserved_channel() {
    let mut eng = EngineState::new();
    eng.allocate_channels(3);
    eng.reserve_channels(1);
    let c = chunk(7);
    assert_eq!(Channel::all().play(&mut eng, &c, 0), Ok(Channel(1)));
    assert_eq!(Channel::all().play(&mut eng, &c, 0), Ok(Channel(2)));
    assert_eq!(
        Channel::all().play(&mut eng, &c, 0),
        Err(String::from("No free channels available"))
    );
}

#[test]
fn concrete_play_and_invalid_handles() {
    let mut eng = EngineState::new();
    eng.allocate_channels(2);
    let c = chunk(9);
    assert_eq!(Channel(1).play(&mut eng, &c, 0), Ok(Channel(1)));
    assert!(Channel(1).is_playing(&eng));
    assert_eq!(
        Channel(5).play(&mut eng, &c, 0),
        Err(String::from("Invalid channel number"))
    );
    assert_eq!(
        Channel::post().play(&mut eng, &c, 0),
        Err(String::from("Invalid channel number"))
    );
}

#[test]
fn fade_in_marks_the_channel_fading_in() {
    let mut eng = EngineState::new();
    eng.allocate_channels(1);
    let c = chunk(3);
    assert_eq!(Channel(0).fade_in(&mut eng, &c, 0, 500), Ok(Channel(0)));
    assert_eq!(Channel(0).get_fading(&eng), Fading::FadingIn);
    assert_eq!(Channel(0).fade_out(&mut eng, 100), 1);
    assert_eq!(Channel(0).get_fading(&eng), Fading::FadingOut);
}

#[test]
fn pause_resume_and_halt() {
    let mut eng = EngineState::new();
    eng.allocate_channels(2);
    let c = chunk(1);
    Channel(0).play(&mut eng, &c, 0).unwrap();
    Channel(1).play(&mut eng, &c, 0).unwrap();
    Channel(0).pause(&mut eng);
    assert!(Channel(0).is_paused(&eng));
    assert!(!Channel(1).is_paused(&eng));
    assert_eq!(eng.paused_count(), 1);
    Channel(0).resume(&mut eng);
    assert_eq!(eng.paused_count(), 0);
    Channel::all().halt(&mut eng);
    assert!(!Channel(0).is_playing(&eng));
    assert!(!Channel(1).is_playing(&eng));
    assert_eq!(eng.playing_count(), 0);
}

#[test]
fn expire_reports_how_many_channels_the_order_covers() {
    let mut eng = EngineState::new();
    eng.allocate_channels(3);
    let c = chunk(1);
    Channel(0).play(&mut eng, &c, 0).unwrap();
    Channel(2).play(&mut eng, &c, 0).unwrap();
    assert_eq!(Channel::all().expire(&eng, 100), 2);
    assert_eq!(Channel(0).expire(&eng, 100), 1);
    assert_eq!(Channel(1).expire(&eng, 100), 0);
}

#[test]
fn get_chunk_returns_a_borrowed_view() {
    let mut eng = EngineState::new();
    eng.allocate_channels(1);
    assert_eq!(Channel(0).get_chunk(&eng), None);
    let c = chunk(42);
    Channel(0).play(&mut eng, &c, 0).unwrap();
    let view = Channel(0).get_chunk(&eng).unwrap();
    assert_eq!(view.raw, 42);
    assert!(!view.should_free());
}

#[test]
fn channel_volume_clamps_and_averages() {
    let mut eng = EngineState::new();
    eng.allocate_channels(2);
    assert_eq!(Channel(0).set_volume(&mut eng, 100), 128);
    assert_eq!(Channel(1).set_volume(&mut eng, 200), 128);
    assert_eq!(Channel(1).get_volume(&mut eng), 128);
    assert_eq!(Channel(0).set_volume(&mut eng, -1), 100);
    assert_eq!(Channel::all().get_volume(&mut eng), 114);
    assert_eq!(Channel::all().set_volume(&mut eng, 50), 114);
    assert_eq!(Channel(0).get_volume(&mut eng), 50);
    assert_eq!(Channel(1).get_volume(&mut eng), 50);
}

#[test]
fn unset_panning_restores_the_untouched_state() {
    // set_panning then unset_panning leaves the channel exactly as a
    // channel that never had panning set.
    let mut touched = EngineState::new();
    touched.allocate_channels(2);
    let mut untouched = EngineState::new();
    untouched.allocate_channels(2);
    Channel(0).set_panning(&mut touched, 0, 255).unwrap();
    Channel(0).set_panning(&mut touched, 40, 80).unwrap();
    Channel(0).unset_panning(&mut touched).unwrap();
    assert_eq!(touched.channels[0], untouched.channels[0]);
    assert_eq!(touched.channels[1], untouched.channels[1]);
}

#[test]
fn spatial_effects_set_and_unset() {
    let mut eng = EngineState::new();
    eng.allocate_channels(1);
    Channel(0).set_distance(&mut eng, 200).unwrap();
    assert_eq!(eng.channels[0].distance, 200);
    Channel(0).unset_distance(&mut eng).unwrap();
    assert_eq!(eng.channels[0].distance, 0);
    Channel(0).set_position(&mut eng, 90, 128).unwrap();
    assert_eq!(eng.channels[0].angle, 90);
    assert_eq!(eng.channels[0].pos_distance, 128);
    Channel(0).unset_position(&mut eng).unwrap();
    assert_eq!(eng.channels[0].angle, 0);
    assert_eq!(eng.channels[0].pos_distance, 0);
    Channel(0).set_reverse_stereo(&mut eng, true).unwrap();
    assert!(eng.channels[0].reverse);
    assert_eq!(
        Channel(9).set_panning(&mut eng, 1, 2),
        Err(String::from("Invalid channel number"))
    );
}

#[test]
fn adding_a_channel_to_a_group_moves_its_membership() {
    // After adding channel C to G1 and then to G2, G1 no longer counts C
    // and G2 does.
    let mut eng = EngineState::new();
    eng.allocate_channels(4);
    let g1 = Group(1);
    let g2 = Group(2);
    assert!(g1.add_channel(&mut eng, Channel(0)));
    assert!(g1.add_channel(&mut eng, Channel(2)));
    assert_eq!(g1.count(&eng), 2);
    assert_eq!(g2.count(&eng), 0);
    assert!(g2.add_channel(&mut eng, Channel(2)));
    assert_eq!(g1.count(&eng), 1);
    assert_eq!(g2.count(&eng), 1);
    assert!(!g1.add_channel(&mut eng, Channel(7)));
}

#[test]
fn the_default_group_counts_every_channel() {
    let mut eng = EngineState::new();
    eng.allocate_channels(5);
    assert_eq!(Group::default().count(&eng), 5);
    assert_eq!(Group(3).count(&eng), 0);
}

#[test]
fn group_ranges_are_clamped_to_the_allocation() {
    let mut eng = EngineState::new();
    eng.allocate_channels(4);
    let g = Group(6);
    assert_eq!(g.add_channels_range(&mut eng, 1, 2), 2);
    assert_eq!(g.count(&eng), 2);
    assert_eq!(g.add_channels_range(&mut eng, 0, 99), 4);
    assert_eq!(g.count(&eng), 4);
    assert_eq!(g.add_channels_range(&mut eng, 5, 9), 0);
    assert_eq!(g.add_channels_range(&mut eng, 3, 1), 0);
}

#[test]
fn group_lookups_track_playback_order() {
    let mut eng = EngineState::new();
    eng.allocate_channels(4);
    let g = Group(1);
    g.add_channels_range(&mut eng, 0, 2);
    let c = chunk(1);
    Channel(2).play(&mut eng, &c, 0).unwrap();
    Channel(0).play(&mut eng, &c, 0).unwrap();
    Channel(1).play(&mut eng, &c, 0).unwrap();
    assert_eq!(g.find_oldest(&eng), Some(Channel(2)));
    assert_eq!(g.find_newest(&eng), Some(Channel(1)));
    assert_eq!(g.find_available(&eng), None);
    Channel(0).halt(&mut eng);
    assert_eq!(g.find_available(&eng), Some(Channel(0)));
    assert_eq!(Group(9).find_oldest(&eng), None);
}

#[test]
fn group_fade_out_and_halt_touch_only_members() {
    let mut eng = EngineState::new();
    eng.allocate_channels(3);
    let g = Group(1);
    g.add_channel(&mut eng, Channel(0));
    g.add_channel(&mut eng, Channel(1));
    let c = chunk(1);
    Channel(0).play(&mut eng, &c, 0).unwrap();
    Channel(2).play(&mut eng, &c, 0).unwrap();
    assert_eq!(g.fade_out(&mut eng, 100), 1);
    assert_eq!(Channel(0).get_fading(&eng), Fading::FadingOut);
    assert_eq!(Channel(2).get_fading(&eng), Fading::NoFading);
    g.halt(&mut eng);
    assert!(!Channel(0).is_playing(&eng));
    assert!(Channel(2).is_playing(&eng));
}
