use video_player::{
    Caps, Frame, PlayerBuilder, PlayerError, PlayerHandler, PlayerMessage, PipelineState,
    SampleProbe, SourceProbe,
};

fn caps() -> Caps {
    Caps { width: 4, height: 4, fps_num: 25, fps_den: 1 }
}

fn frame(byte: u8) -> Frame {
    Frame { width: 1, height: 1, pixels: vec![byte, byte, byte, 255] }
}

#[test]
fn empty_registry_answers_nothing() {
    let handler = PlayerHandler::new();
    let id = "main player".to_string();
    assert!(handler.get_player(&id).is_none());
    assert!(handler.get_frame(&id).is_none());
}

#[test]
fn default_registry_is_empty() {
    let mut handler = PlayerHandler::default();
    assert!(handler.next_message().is_none());
}

#[test]
fn no_frame_is_cached_before_one_is_processed() {
    let mut handler = PlayerHandler::new();
    let id = "main player".to_string();
    handler
        .start_player(PlayerBuilder::new(id.clone()).set_auto_start(true), SourceProbe::TimedOut)
        .unwrap();
    assert!(handler.get_player(&id).is_some());
    assert!(handler.get_frame(&id).is_none());
}

#[test]
fn the_latest_frame_wins() {
    let mut handler = PlayerHandler::new();
    let id = "p1".to_string();
    handler.start_player(PlayerBuilder::new(id.clone()), SourceProbe::TimedOut).unwrap();
    handler.handle_event(PlayerMessage::Frame(id.clone(), frame(1)));
    handler.handle_event(PlayerMessage::Frame(id.clone(), frame(2)));
    let cached = handler.get_frame(&id).unwrap();
    assert_eq!(cached.pixels, vec![2, 2, 2, 255]);
}

#[test]
fn frames_for_unknown_ids_are_dropped() {
    let mut handler = PlayerHandler::new();
    let known = "p1".to_string();
    let unknown = "p2".to_string();
    handler.start_player(PlayerBuilder::new(known.clone()), SourceProbe::TimedOut).unwrap();
    handler.handle_event(PlayerMessage::Frame(unknown.clone(), frame(7)));
    assert!(handler.get_frame(&known).is_none());
    assert!(handler.get_frame(&unknown).is_none());
}

#[test]
fn non_frame_messages_are_reserved_and_ignored() {
    let mut handler = PlayerHandler::new();
    let id = "p1".to_string();
    handler.start_player(PlayerBuilder::new(id.clone()), SourceProbe::TimedOut).unwrap();
    handler.handle_event(PlayerMessage::StateChanged(id.clone(), PipelineState::Playing));
    handler.handle_event(PlayerMessage::Error(id.clone(), PlayerError::Source));
    assert!(handler.get_frame(&id).is_none());
    assert!(!handler.get_player(&id).unwrap().is_playing());
}

#[test]
fn starting_the_same_id_again_replaces_the_player() {
    let mut handler = PlayerHandler::new();
    let id = "p1".to_string();
    handler.start_player(PlayerBuilder::new(id.clone()), SourceProbe::TimedOut).unwrap();
    handler.handle_event(PlayerMessage::Frame(id.clone(), frame(3)));
    assert!(handler.get_frame(&id).is_some());

    handler
        .start_player(PlayerBuilder::new(id.clone()).set_auto_start(true), SourceProbe::TimedOut)
        .unwrap();
    assert_eq!(handler.players.len(), 1);
    assert!(handler.get_player(&id).unwrap().settings.auto_start);
    // The replacement starts with an empty frame cache.
    assert!(handler.get_frame(&id).is_none());
}

#[test]
fn failed_construction_leaves_the_registry_unchanged() {
    let mut handler = PlayerHandler::new();
    let id = "p1".to_string();
    let builder =
        PlayerBuilder::new(id.clone()).set_uri("file:///nowhere.mp4".to_string());
    let r = handler.start_player(builder, SourceProbe::TimedOut);
    assert_eq!(r, Err(PlayerError::Source));
    assert!(handler.get_player(&id).is_none());
    assert_eq!(handler.players.len(), 0);
}

#[test]
fn get_player_mut_routes_controls() {
    let mut handler = PlayerHandler::new();
    let id = "p1".to_string();
    handler
        .start_player(
            PlayerBuilder::new(id.clone()).set_uri("file:///clip.mp4".to_string()),
            SourceProbe::Negotiated(caps()),
        )
        .unwrap();
    let player = handler.get_player_mut(&id).unwrap();
    assert!(!player.is_playing());
    player.play();
    assert!(handler.get_player(&id).unwrap().is_playing());
    assert!(handler.get_player_mut(&"p2".to_string()).is_none());
}

#[test]
fn the_merged_stream_carries_tagged_frames_back_to_the_cache() {
    let mut handler = PlayerHandler::new();
    let first = "p1".to_string();
    let second = "p2".to_string();
    handler.start_player(PlayerBuilder::new(first.clone()), SourceProbe::TimedOut).unwrap();
    handler.start_player(PlayerBuilder::new(second.clone()), SourceProbe::TimedOut).unwrap();

    // Nothing is pending yet.
    assert!(handler.next_message().is_none());

    // The second player's frame callback fires.
    let probe = SampleProbe { pixels: Some(vec![8, 8, 8, 255]), dimensions: Some((1, 1)) };
    handler.get_player(&second).unwrap().on_sample(Some(probe)).unwrap();

    let message = handler.next_message().expect("a message should be pending");
    match &message {
        PlayerMessage::Frame(id, f) => {
            assert_eq!(id, &second);
            assert_eq!(f.pixels, vec![8, 8, 8, 255]);
        }
        other => panic!("expected a frame message, got {:?}", other),
    }
    handler.handle_event(message);
    assert!(handler.get_frame(&first).is_none());
    assert_eq!(handler.get_frame(&second).unwrap().pixels, vec![8, 8, 8, 255]);
    assert!(handler.next_message().is_none());
}
