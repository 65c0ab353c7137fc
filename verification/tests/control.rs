use video_player::{
    apply_control, seconds_to_ns, Caps, ControlEvent, Player, PlayerBuilder, PlayerError,
    SourceProbe, SECOND_NS,
};

fn caps() -> Caps {
    Caps { width: 320, height: 240, fps_num: 30, fps_den: 1 }
}

fn player_with_source() -> Player {
    let b = PlayerBuilder::new("p1".to_string())
        .set_auto_start(true)
        .set_uri("file:///clip.mp4".to_string());
    let (player, _rx) = Player::new(b, SourceProbe::Negotiated(caps())).unwrap();
    player
}

#[test]
fn seconds_convert_exactly_and_saturate() {
    assert_eq!(seconds_to_ns(0), 0);
    assert_eq!(seconds_to_ns(5), 5 * SECOND_NS);
    assert_eq!(seconds_to_ns(u64::MAX), u64::MAX);
}

#[test]
fn play_and_pause_events_drive_the_pipeline() {
    let mut player = player_with_source();
    let mut pending = None;
    assert_eq!(apply_control(&mut player, &mut pending, ControlEvent::Pause), Ok(()));
    assert!(!player.is_playing());
    assert_eq!(apply_control(&mut player, &mut pending, ControlEvent::Play), Ok(()));
    assert!(player.is_playing());
}

#[test]
fn toggle_mute_flips_each_time() {
    let mut player = player_with_source();
    let mut pending = None;
    assert!(!player.get_muted());
    apply_control(&mut player, &mut pending, ControlEvent::ToggleMute).unwrap();
    assert!(player.get_muted());
    apply_control(&mut player, &mut pending, ControlEvent::ToggleMute).unwrap();
    assert!(!player.get_muted());
}

#[test]
fn volume_event_sets_the_level() {
    let mut player = player_with_source();
    let mut pending = None;
    apply_control(&mut player, &mut pending, ControlEvent::Volume(300)).unwrap();
    assert_eq!(player.get_volume(), 300);
}

#[test]
fn scrubbing_is_two_phase() {
    let mut player = player_with_source();
    let mut pending = None;
    // Drag ticks propose, and propose again; the pipeline never moves.
    apply_control(&mut player, &mut pending, ControlEvent::Seek(3)).unwrap();
    apply_control(&mut player, &mut pending, ControlEvent::Seek(5)).unwrap();
    assert_eq!(player.get_position(), 0);
    assert_eq!(pending, Some(5));
    // Releasing the thumb commits the last proposal only.
    apply_control(&mut player, &mut pending, ControlEvent::Released).unwrap();
    assert_eq!(player.get_position(), 5 * SECOND_NS);
    assert_eq!(pending, None);
}

#[test]
fn release_with_nothing_pending_commits_nothing() {
    let mut player = player_with_source();
    let mut pending = None;
    player.seek(SECOND_NS).unwrap();
    assert_eq!(apply_control(&mut player, &mut pending, ControlEvent::Released), Ok(()));
    assert_eq!(player.get_position(), SECOND_NS);
}

#[test]
fn release_without_a_source_reports_the_seek_failure() {
    let (mut player, _rx) =
        Player::new(PlayerBuilder::new("p1".to_string()), SourceProbe::TimedOut).unwrap();
    let mut pending = Some(4);
    let r = apply_control(&mut player, &mut pending, ControlEvent::Released);
    assert_eq!(r, Err(PlayerError::StateChange));
    assert_eq!(pending, None);
}
