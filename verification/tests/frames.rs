use video_player::{
    frame_message, Caps, FlowError, Player, PlayerBuilder, PlayerMessage, SampleProbe, SourceProbe,
};

fn caps() -> Caps {
    Caps { width: 2, height: 1, fps_num: 30, fps_den: 1 }
}

fn complete_probe(pixels: Vec<u8>, width: u32, height: u32) -> SampleProbe {
    SampleProbe { pixels: Some(pixels), dimensions: Some((width, height)) }
}

#[test]
fn no_sample_reports_end_of_stream() {
    let id = "p1".to_string();
    assert_eq!(frame_message(&id, None), Err(FlowError::Eos));
}

#[test]
fn sample_without_buffer_is_fatal() {
    let id = "p1".to_string();
    let probe = SampleProbe { pixels: None, dimensions: Some((2, 1)) };
    assert_eq!(frame_message(&id, Some(probe)), Err(FlowError::Error));
}

#[test]
fn sample_without_caps_is_fatal() {
    let id = "p1".to_string();
    let probe = SampleProbe { pixels: Some(vec![0, 0, 0, 255]), dimensions: None };
    assert_eq!(frame_message(&id, Some(probe)), Err(FlowError::Error));
}

#[test]
fn complete_sample_becomes_a_tagged_frame() {
    let id = "p1".to_string();
    let pixels = vec![1, 2, 3, 255, 4, 5, 6, 255];
    let r = frame_message(&id, Some(complete_probe(pixels.clone(), 2, 1)));
    match r {
        Ok(PlayerMessage::Frame(mid, frame)) => {
            assert_eq!(mid, "p1");
            assert_eq!(frame.width, 2);
            assert_eq!(frame.height, 1);
            assert_eq!(frame.pixels, pixels);
        }
        other => panic!("expected a frame message, got {:?}", other),
    }
}

#[test]
fn on_sample_delivers_over_the_channel() {
    let b = PlayerBuilder::new("p1".to_string()).set_uri("file:///clip.mp4".to_string());
    let (player, mut rx) = Player::new(b, SourceProbe::Negotiated(caps())).unwrap();
    let pixels = vec![9, 9, 9, 255];
    let r = player.on_sample(Some(complete_probe(pixels.clone(), 1, 1)));
    assert_eq!(r, Ok(()));
    match rx.try_recv() {
        Ok(PlayerMessage::Frame(id, frame)) => {
            assert_eq!(id, "p1");
            assert_eq!(frame.pixels, pixels);
        }
        other => panic!("expected a frame message, got {:?}", other),
    }
    assert!(rx.try_recv().is_err());
}

#[test]
fn on_sample_with_consumer_gone_is_fatal() {
    let b = PlayerBuilder::new("p1".to_string());
    let (player, rx) = Player::new(b, SourceProbe::TimedOut).unwrap();
    drop(rx);
    let r = player.on_sample(Some(complete_probe(vec![0, 0, 0, 255], 1, 1)));
    assert_eq!(r, Err(FlowError::Error));
}

#[test]
fn on_sample_still_reports_stream_end() {
    let b = PlayerBuilder::new("p1".to_string());
    let (player, _rx) = Player::new(b, SourceProbe::TimedOut).unwrap();
    assert_eq!(player.on_sample(None), Err(FlowError::Eos));
}
