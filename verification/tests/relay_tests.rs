use rtsp_to_webrtc::errors::SinkWriteKind;
use rtsp_to_webrtc::media::{resolve_streams, StreamDesc, StreamIndexMap};
use rtsp_to_webrtc::relay::{
    RelaySession, SessionAction, SessionPhase, UpstreamEvent, BACKOFF_SECONDS,
};

fn desc(media: &str, encoding: &str) -> StreamDesc {
    StreamDesc { media: media.to_string(), encoding: encoding.to_string() }
}

fn camera_streams() -> Vec<StreamDesc> {
    vec![desc("audio", "pcma"), desc("video", "h264"), desc("application", "onvif")]
}

/// Drive a fresh session to Playing against `camera_streams()`:
/// video resolves to index 1, audio to index 0.
fn playing_session() -> RelaySession {
    let mut s = RelaySession::new();
    assert_eq!(s.step(UpstreamEvent::Start), SessionAction::Describe);
    assert_eq!(
        s.step(UpstreamEvent::DescribeOk(camera_streams())),
        SessionAction::SetupVideo(1)
    );
    assert_eq!(s.step(UpstreamEvent::SetupVideoOk), SessionAction::SetupAudio(0));
    assert_eq!(s.step(UpstreamEvent::SetupAudioOk), SessionAction::Play);
    assert_eq!(s.step(UpstreamEvent::PlayOk), SessionAction::ReadNext);
    assert_eq!(s.phase, SessionPhase::Playing);
    s
}

#[test]
fn resolves_first_matching_streams() {
    let streams = vec![
        desc("audio", "opus"),
        desc("video", "h264"),
        desc("audio", "pcma"),
        desc("video", "h264"),
        desc("audio", "pcma"),
    ];
    let m = resolve_streams(&streams).expect("both streams present");
    assert_eq!(m, StreamIndexMap { video: 1, audio: 2 });
}

#[test]
fn missing_video_fails_resolution() {
    assert!(resolve_streams(&vec![desc("audio", "pcma")]).is_none());
}

#[test]
fn missing_audio_fails_resolution() {
    assert!(resolve_streams(&vec![desc("video", "h264")]).is_none());
}

#[test]
fn wrong_encoding_fails_resolution() {
    assert!(resolve_streams(&vec![desc("video", "h265"), desc("audio", "opus")]).is_none());
}

#[test]
fn empty_stream_list_fails_resolution() {
    assert!(resolve_streams(&Vec::new()).is_none());
}

#[test]
fn happy_path_reaches_playing() {
    playing_session();
}

#[test]
fn video_packet_routed_with_payload_unchanged() {
    let mut s = playing_session();
    let payload = vec![0x80u8, 0x60, 0x01, 0x02, 0xff];
    let act = s.step(UpstreamEvent::MediaPacket { stream_id: 1, payload: payload.clone() });
    assert_eq!(act, SessionAction::WriteVideo(payload));
    assert_eq!(s.phase, SessionPhase::Playing);
}

#[test]
fn audio_packet_routed_with_payload_unchanged() {
    let mut s = playing_session();
    let payload = vec![9u8, 8, 7];
    let act = s.step(UpstreamEvent::MediaPacket { stream_id: 0, payload: payload.clone() });
    assert_eq!(act, SessionAction::WriteAudio(payload));
    assert_eq!(s.phase, SessionPhase::Playing);
}

#[test]
fn unknown_stream_packet_dropped_without_ending_session() {
    let mut s = playing_session();
    let act = s.step(UpstreamEvent::MediaPacket { stream_id: 7, payload: vec![1, 2, 3] });
    assert_eq!(act, SessionAction::DropUnknown(7));
    assert_eq!(s.phase, SessionPhase::Playing);
    // the read loop goes on: the next packet is still routed
    let act = s.step(UpstreamEvent::MediaPacket { stream_id: 1, payload: vec![4] });
    assert_eq!(act, SessionAction::WriteVideo(vec![4]));
}

#[test]
fn control_packets_discarded() {
    let mut s = playing_session();
    assert_eq!(s.step(UpstreamEvent::ControlPacket), SessionAction::ReadNext);
    assert_eq!(s.step(UpstreamEvent::UnknownItem), SessionAction::ReadNext);
    assert_eq!(s.phase, SessionPhase::Playing);
}

#[test]
fn sink_write_failures_never_end_the_attempt() {
    let mut s = playing_session();
    assert_eq!(
        s.step(UpstreamEvent::WriteFailed(SinkWriteKind::NoActiveConsumer)),
        SessionAction::ReadNext
    );
    assert_eq!(
        s.step(UpstreamEvent::WriteFailed(SinkWriteKind::Other)),
        SessionAction::ReadNext
    );
    assert_eq!(s.step(UpstreamEvent::WriteOk), SessionAction::ReadNext);
    assert_eq!(s.phase, SessionPhase::Playing);
}

#[test]
fn audio_setup_failure_is_non_fatal() {
    let mut s = RelaySession::new();
    s.step(UpstreamEvent::Start);
    s.step(UpstreamEvent::DescribeOk(camera_streams()));
    s.step(UpstreamEvent::SetupVideoOk);
    // audio setup fails: the attempt still proceeds to play, video-only
    assert_eq!(s.step(UpstreamEvent::SetupAudioFailed), SessionAction::Play);
    assert!(!s.audio_ok);
    assert_eq!(s.step(UpstreamEvent::PlayOk), SessionAction::ReadNext);
    assert_eq!(s.phase, SessionPhase::Playing);
}

#[test]
fn video_setup_failure_ends_the_attempt() {
    let mut s = RelaySession::new();
    s.step(UpstreamEvent::Start);
    s.step(UpstreamEvent::DescribeOk(camera_streams()));
    assert_eq!(s.step(UpstreamEvent::SetupVideoFailed), SessionAction::Backoff);
    assert_eq!(s.phase, SessionPhase::BackingOff);
}

#[test]
fn missing_required_stream_is_a_connection_failure() {
    let mut s = RelaySession::new();
    s.step(UpstreamEvent::Start);
    let act = s.step(UpstreamEvent::DescribeOk(vec![desc("video", "h264")]));
    assert_eq!(act, SessionAction::Backoff);
    assert_eq!(s.phase, SessionPhase::BackingOff);
}

#[test]
fn backoff_interval_is_one_second() {
    assert_eq!(BACKOFF_SECONDS, 1);
}

#[test]
fn end_of_stream_reconnects_after_backoff() {
    let mut s = playing_session();
    assert_eq!(s.step(UpstreamEvent::EndOfStream), SessionAction::Backoff);
    assert_eq!(s.phase, SessionPhase::BackingOff);
    assert_eq!(s.step(UpstreamEvent::Start), SessionAction::Describe);
    assert_eq!(s.phase, SessionPhase::Describing);
}

#[test]
fn reconnects_across_repeated_failures() {
    let mut s = playing_session();
    assert_eq!(s.step(UpstreamEvent::ReadFailed), SessionAction::Backoff);
    // three consecutive failed attempts: every one retries
    for _ in 0..3 {
        assert_eq!(s.phase, SessionPhase::BackingOff);
        assert_eq!(s.step(UpstreamEvent::Start), SessionAction::Describe);
        assert_eq!(s.step(UpstreamEvent::DescribeFailed), SessionAction::Backoff);
    }
    // and the next attempt can still succeed, re-resolving indices afresh
    assert_eq!(s.step(UpstreamEvent::Start), SessionAction::Describe);
    let act = s.step(UpstreamEvent::DescribeOk(vec![desc("video", "h264"), desc("audio", "pcma")]));
    assert_eq!(act, SessionAction::SetupVideo(0));
}

#[test]
fn indices_are_reresolved_each_attempt() {
    let mut s = playing_session();
    assert_eq!(s.indices, Some(StreamIndexMap { video: 1, audio: 0 }));
    s.step(UpstreamEvent::ReadFailed);
    assert_eq!(s.indices, None);
    s.step(UpstreamEvent::Start);
    let act = s.step(UpstreamEvent::DescribeOk(vec![desc("video", "h264"), desc("audio", "pcma")]));
    assert_eq!(act, SessionAction::SetupVideo(0));
    assert_eq!(s.indices, Some(StreamIndexMap { video: 0, audio: 1 }));
}
