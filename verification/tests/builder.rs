use video_player::{Caps, Player, PlayerBuilder, SourceProbe};

fn caps() -> Caps {
    Caps { width: 1280, height: 720, fps_num: 30, fps_den: 1 }
}

#[test]
fn builder_defaults() {
    let b = PlayerBuilder::new("main player".to_string());
    assert_eq!(b.id, "main player");
    assert!(!b.auto_start);
    assert!(b.uri.is_none());
}

#[test]
fn builder_records_choices() {
    let b = PlayerBuilder::new("p1".to_string())
        .set_auto_start(true)
        .set_uri("file:///clip.mp4".to_string());
    assert_eq!(b.id, "p1");
    assert!(b.auto_start);
    assert_eq!(b.uri.as_deref(), Some("file:///clip.mp4"));
}

#[test]
fn source_round_trips_through_construction() {
    let uri = "http://host/sample.mp4".to_string();
    let b = PlayerBuilder::new("p1".to_string()).set_auto_start(true).set_uri(uri.clone());
    let (player, _rx) = Player::new(b, SourceProbe::Negotiated(caps())).unwrap();
    assert_eq!(player.get_source(), Some(uri));
}

#[test]
fn build_player_wires_the_given_sender() {
    let (tx, mut rx) = tokio::sync::mpsc::unbounded_channel();
    let b = PlayerBuilder::new("p1".to_string()).set_uri("file:///clip.mp4".to_string());
    let player = Player::build_player(b, tx, SourceProbe::Negotiated(caps())).unwrap();
    let probe = video_player::SampleProbe {
        pixels: Some(vec![5, 5, 5, 255]),
        dimensions: Some((1, 1)),
    };
    player.on_sample(Some(probe)).unwrap();
    match rx.try_recv() {
        Ok(video_player::PlayerMessage::Frame(id, frame)) => {
            assert_eq!(id, "p1");
            assert_eq!(frame.pixels, vec![5, 5, 5, 255]);
        }
        other => panic!("expected a frame message, got {:?}", other),
    }
}

#[test]
fn construction_without_uri_sets_no_source() {
    let b = PlayerBuilder::new("p1".to_string());
    let (player, _rx) = Player::new(b, SourceProbe::TimedOut).unwrap();
    assert_eq!(player.get_source(), None);
    assert!(!player.is_playing());
    assert!(player.video_details.is_none());
}
