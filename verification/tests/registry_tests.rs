use std::sync::Arc;

use rtsp_to_webrtc::locator::CameraIdentity;
use rtsp_to_webrtc::registry::Registry;

fn identity(url: &str) -> CameraIdentity {
    CameraIdentity { url: url.to_string() }
}

#[test]
fn first_request_creates_later_requests_reuse() {
    let mut reg = Registry::new();
    assert_eq!(reg.count(), 0);
    let id = identity("rtsp://camera.example/stream");

    let (i1, created1) = reg.get_or_create(&id);
    assert!(created1);
    assert_eq!(reg.count(), 1);

    // many more requests for the same camera: nothing new is created
    for _ in 0..10 {
        let (i, created) = reg.get_or_create(&id);
        assert!(!created);
        assert_eq!(i, i1);
    }
    assert_eq!(reg.count(), 1);
}

#[test]
fn distinct_cameras_get_distinct_entries() {
    let mut reg = Registry::new();
    let (i1, c1) = reg.get_or_create(&identity("rtsp://one.example/s"));
    let (i2, c2) = reg.get_or_create(&identity("rtsp://two.example/s"));
    assert!(c1 && c2);
    assert_ne!(i1, i2);
    assert_eq!(reg.count(), 2);
}

#[test]
fn lookup_is_nonblocking_read() {
    let mut reg = Registry::new();
    let id = identity("rtsp://camera.example/stream");
    assert!(reg.lookup(&id).is_none());
    let (i, _) = reg.get_or_create(&id);
    assert_eq!(reg.lookup(&id), Some(i));
    // lookup does not create
    assert!(reg.lookup(&identity("rtsp://other.example/s")).is_none());
    assert_eq!(reg.count(), 1);
}

#[test]
fn repeated_requests_share_the_same_sink_pair() {
    let mut reg = Registry::new();
    let id = identity("rtsp://camera.example/stream");
    let (i1, _) = reg.get_or_create(&id);
    let video1 = Arc::clone(&reg.sinks_at(i1).video);
    let audio1 = Arc::clone(&reg.sinks_at(i1).audio);

    let (i2, _) = reg.get_or_create(&id);
    let video2 = Arc::clone(&reg.sinks_at(i2).video);
    let audio2 = Arc::clone(&reg.sinks_at(i2).audio);

    // same underlying sinks, not copies: every viewer fans out from them
    assert!(Arc::ptr_eq(&video1, &video2));
    assert!(Arc::ptr_eq(&audio1, &audio2));
}

#[test]
fn sink_pairs_carry_the_expected_codecs() {
    let mut reg = Registry::new();
    let (i, _) = reg.get_or_create(&identity("rtsp://camera.example/stream"));
    let pair = reg.sinks_at(i);
    assert_eq!(pair.video.codec().mime_type, "video/H264");
    assert_eq!(pair.audio.codec().mime_type, "audio/PCMA");
}
