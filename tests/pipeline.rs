use video_pipeline::action::{Action, Fault};
use video_pipeline::chunk::{CodecError, EncodedChunk, FrameKind, SourceError};
use video_pipeline::codec::{Decoder, KeyState, SessionState};
use video_pipeline::encoder::Encoder;
use video_pipeline::mailbox::ChunkMailbox;
use video_pipeline::pipeline::{ConsumerStep, Phase, Pipeline};

fn chunk(n: u8, kind: FrameKind) -> EncodedChunk {
    EncodedChunk::new(vec![n, n, n], n as i64 * 33_333, Some(33_333), kind)
}

fn running() -> Pipeline {
    let mut p = Pipeline::new();
    assert_eq!(p.start(Ok(())), Ok(()));
    p
}

fn running_with_decoder() -> Pipeline {
    let mut p = running();
    assert!(matches!(p.evaluate(), ConsumerStep::CreateDecoder));
    p
}

#[test]
fn mailbox_keeps_only_the_last_put() {
    let mut m = ChunkMailbox::new();
    assert!(m.peek().is_none());
    m.put(chunk(1, FrameKind::Key));
    m.put(chunk(2, FrameKind::Delta));
    m.put(chunk(3, FrameKind::Delta));
    let seen = m.peek().unwrap();
    assert_eq!(seen.payload(), &vec![3, 3, 3]);
    assert_eq!(seen.timestamp(), 99_999);
    // a peek does not consume
    assert_eq!(m.peek().unwrap().payload(), &vec![3, 3, 3]);
    m.clear();
    assert!(m.peek().is_none());
}

#[test]
fn decoder_waits_for_a_key_chunk() {
    let mut d = Decoder::new();
    assert_eq!(d.configure(Ok(())), Ok(()));
    assert_eq!(d.offer(FrameKind::Delta), Err(CodecError::MissingKeyFrame));
    assert_eq!(d.offer(FrameKind::Delta), Err(CodecError::MissingKeyFrame));
    assert_eq!(d.key_state(), KeyState::NoKeyFrameYet);
    assert_eq!(d.offer(FrameKind::Key), Ok(()));
    assert_eq!(d.key_state(), KeyState::Streaming);
    assert_eq!(d.offer(FrameKind::Delta), Ok(()));
    assert_eq!(d.offer(FrameKind::Delta), Ok(()));
}

#[test]
fn unconfigured_or_closed_decoder_takes_no_work() {
    let mut d = Decoder::new();
    assert_eq!(d.offer(FrameKind::Key), Err(CodecError::DecodeFailed));
    assert_eq!(d.configure(Ok(())), Ok(()));
    d.close();
    assert_eq!(d.state(), SessionState::Closed);
    assert_eq!(d.offer(FrameKind::Key), Err(CodecError::DecodeFailed));
}

#[test]
fn sessions_configure_once() {
    let mut e = Encoder::new();
    assert_eq!(e.configure(Ok(())), Ok(()));
    assert_eq!(e.state(), SessionState::Configured);
    assert_eq!(e.configure(Ok(())), Err(CodecError::ConfigurationFailed));
    let mut f = Encoder::new();
    assert_eq!(f.configure(Err(CodecError::EncodeFailed)), Err(CodecError::ConfigurationFailed));
    assert_eq!(f.state(), SessionState::Closed);
}

#[test]
fn encode_releases_the_frame_once() {
    let mut e = Encoder::new();
    assert_eq!(
        e.encode(7, false),
        vec![Action::Release(7), Action::Log(Fault::Codec(CodecError::EncodeFailed))]
    );
    assert_eq!(e.configure(Ok(())), Ok(()));
    assert_eq!(e.encode(7, true), vec![Action::Encode(7, true), Action::Release(7)]);

    let mut p = running();
    let actions = p.on_pull(Ok(9));
    assert_eq!(actions, vec![Action::Encode(9, false), Action::Release(9), Action::Pull]);
    assert_eq!(actions.iter().filter(|a| **a == Action::Release(9)).count(), 1);
    // neither completion report releases anything
    assert!(p.on_encoded(chunk(1, FrameKind::Key)));
    assert_eq!(
        p.on_encode_error(CodecError::EncodeFailed),
        vec![Action::Log(Fault::Codec(CodecError::EncodeFailed))]
    );
}

#[test]
fn resubmitted_chunk_is_not_decoded_twice() {
    let mut p = running_with_decoder();
    assert!(matches!(p.evaluate(), ConsumerStep::Idle));
    assert!(p.on_encoded(chunk(1, FrameKind::Key)));
    match p.evaluate() {
        ConsumerStep::Decode(c) => assert_eq!(c.payload(), &vec![1, 1, 1]),
        other => panic!("expected a decode, got {:?}", other),
    }
    assert!(matches!(p.evaluate(), ConsumerStep::Idle));
    assert!(matches!(p.evaluate(), ConsumerStep::Idle));
    // an equal chunk written again is the same chunk
    assert!(p.on_encoded(chunk(1, FrameKind::Key)));
    assert!(matches!(p.evaluate(), ConsumerStep::Idle));
    // a new one is decoded
    assert!(p.on_encoded(chunk(2, FrameKind::Delta)));
    assert!(matches!(p.evaluate(), ConsumerStep::Decode(_)));
}

#[test]
fn consumer_late_to_five_frames_needs_a_key_frame() {
    let mut p = running_with_decoder();
    for f in 1..=5u64 {
        let actions = p.on_pull(Ok(f));
        assert_eq!(actions, vec![Action::Encode(f, false), Action::Release(f), Action::Pull]);
        let kind = if f == 1 { FrameKind::Key } else { FrameKind::Delta };
        assert!(p.on_encoded(chunk(f as u8, kind)));
    }
    assert_eq!(p.latest().unwrap().payload(), &vec![5, 5, 5]);
    assert!(matches!(p.evaluate(), ConsumerStep::Rejected(CodecError::MissingKeyFrame)));
    assert_eq!(p.key_state(), KeyState::NoKeyFrameYet);
    assert!(p.key_frame_wanted());
    // the same delta chunk is not offered again
    assert!(matches!(p.evaluate(), ConsumerStep::Idle));
    // the next frame is encoded as a key frame
    assert_eq!(p.on_pull(Ok(6)), vec![Action::Encode(6, true), Action::Release(6), Action::Pull]);
    assert!(!p.key_frame_wanted());
    assert!(p.on_encoded(chunk(6, FrameKind::Key)));
    match p.evaluate() {
        ConsumerStep::Decode(c) => {
            assert_eq!(c.kind(), FrameKind::Key);
            assert_eq!(c.timestamp(), 199_998);
        }
        other => panic!("expected a decode, got {:?}", other),
    }
    assert_eq!(p.key_state(), KeyState::Streaming);
    assert!(p.on_encoded(chunk(7, FrameKind::Delta)));
    assert!(matches!(p.evaluate(), ConsumerStep::Decode(_)));
}

#[test]
fn source_errors_are_logged_and_retried() {
    let mut p = running();
    assert_eq!(
        p.on_pull(Err(SourceError::ReadFailed)),
        vec![Action::Log(Fault::Source(SourceError::ReadFailed)), Action::Pull]
    );
    assert_eq!(
        p.on_pull(Err(SourceError::DeviceUnavailable)),
        vec![Action::Log(Fault::Source(SourceError::DeviceUnavailable)), Action::Pull]
    );
    assert_eq!(p.on_pull(Ok(3)), vec![Action::Encode(3, false), Action::Release(3), Action::Pull]);
    assert!(p.on_encoded(chunk(3, FrameKind::Key)));
    assert_eq!(p.on_pull(Ok(4)), vec![Action::Encode(4, false), Action::Release(4), Action::Pull]);
    assert_eq!(p.phase(), Phase::Running);
}

#[test]
fn stop_during_a_pull_silences_the_pipeline() {
    let mut p = running_with_decoder();
    assert!(p.on_encoded(chunk(1, FrameKind::Key)));
    assert!(matches!(p.evaluate(), ConsumerStep::Decode(_)));
    // a pull is in flight when the pipeline stops
    assert_eq!(p.stop(), vec![Action::CloseEncoder, Action::CloseDecoder]);
    assert_eq!(p.phase(), Phase::Stopped);
    assert_eq!(p.encoder_state(), SessionState::Closed);
    assert_eq!(p.decoder_state(), SessionState::Closed);
    assert!(p.latest().is_none());
    // the frame that was in flight is only released, and the loop ends
    assert_eq!(p.on_pull(Ok(2)), vec![Action::Release(2)]);
    assert_eq!(p.on_pull(Err(SourceError::ReadFailed)), vec![]);
    assert!(!p.on_encoded(chunk(2, FrameKind::Delta)));
    assert!(p.latest().is_none());
    assert_eq!(p.on_encode_error(CodecError::EncodeFailed), vec![]);
    assert!(matches!(p.evaluate(), ConsumerStep::Idle));
    assert_eq!(p.on_decoded(5), vec![Action::Release(5)]);
    assert_eq!(p.on_decode_error(CodecError::DesyncFatal), vec![]);
    assert_eq!(p.stop(), vec![]);
    assert_eq!(p.encoder_state(), SessionState::Closed);
    assert_eq!(p.decoder_state(), SessionState::Closed);
}

#[test]
fn stop_before_the_decoder_exists_closes_only_the_encoder() {
    let mut p = running();
    assert_eq!(p.stop(), vec![Action::CloseEncoder]);
    assert_eq!(p.decoder_state(), SessionState::Closed);
}

#[test]
fn decoded_frames_are_painted_then_released() {
    let p = running_with_decoder();
    assert_eq!(p.on_decoded(11), vec![Action::Paint(11), Action::Release(11)]);
}

#[test]
fn failed_start_is_fatal() {
    let mut p = Pipeline::new();
    assert_eq!(p.phase(), Phase::NotStarted);
    assert_eq!(p.start(Err(CodecError::EncodeFailed)), Err(CodecError::ConfigurationFailed));
    assert_eq!(p.phase(), Phase::Stopped);
    assert_eq!(p.encoder_state(), SessionState::Closed);
    assert_eq!(p.decoder_state(), SessionState::Closed);
    assert_eq!(p.on_pull(Ok(1)), vec![Action::Release(1)]);
}

#[test]
fn second_start_is_refused() {
    let mut p = running();
    assert_eq!(p.start(Ok(())), Err(CodecError::ConfigurationFailed));
    assert_eq!(p.phase(), Phase::Running);
}

#[test]
fn desync_rebuilds_the_decoder() {
    let mut p = running_with_decoder();
    assert!(p.on_encoded(chunk(1, FrameKind::Key)));
    assert!(matches!(p.evaluate(), ConsumerStep::Decode(_)));
    assert_eq!(p.key_state(), KeyState::Streaming);
    assert_eq!(
        p.on_decode_error(CodecError::DecodeFailed),
        vec![Action::Log(Fault::Codec(CodecError::DecodeFailed))]
    );
    assert_eq!(p.decoder_state(), SessionState::Configured);
    assert_eq!(
        p.on_decode_error(CodecError::DesyncFatal),
        vec![Action::Log(Fault::Codec(CodecError::DesyncFatal)), Action::CloseDecoder]
    );
    assert_eq!(p.decoder_state(), SessionState::Unconfigured);
    assert!(matches!(p.evaluate(), ConsumerStep::CreateDecoder));
    assert_eq!(p.key_state(), KeyState::NoKeyFrameYet);
    // the chunk in the mailbox is offered to the new session
    assert!(matches!(p.evaluate(), ConsumerStep::Decode(_)));
}

#[test]
fn chunks_compare_by_content() {
    let a = chunk(4, FrameKind::Delta);
    let b = a.duplicate();
    assert!(a.same_as(&b));
    assert_eq!(b.payload(), &vec![4, 4, 4]);
    assert_eq!(b.duration(), Some(33_333));
    let c = EncodedChunk::new(vec![4, 4, 5], a.timestamp(), a.duration(), a.kind());
    assert!(!a.same_as(&c));
    let d = EncodedChunk::new(vec![4, 4, 4], a.timestamp(), None, a.kind());
    assert!(!a.same_as(&d));
    let e = EncodedChunk::new(vec![], 0, None, FrameKind::Key);
    assert!(e.same_as(&e.duplicate()));
}
