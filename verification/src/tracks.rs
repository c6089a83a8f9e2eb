//! The media sinks a relay session writes into.
//!
//! Each camera gets exactly one pair of sinks — an H.264 video track and a
//! PCMA audio track — created once when the camera's registry entry is made
//! and shared from then on: the owning relay session writes packets into
//! them, and every viewer peer connection attaches to the same pair.

use std::sync::Arc;
use vstd::prelude::*;
use webrtc::track::track_local::track_local_static_rtp::TrackLocalStaticRTP;

verus! {

/// A local WebRTC track fed with raw RTP packets; the fan-out to viewers is
/// the WebRTC layer's responsibility.
#[verifier::external_type_specification]
#[verifier::external_body]
pub struct ExTrackLocalStaticRTP(TrackLocalStaticRTP);

/// The two sinks of one camera: a video track and an audio track, each
/// shared between the one writing relay session and all viewers.
pub struct SinkPair {
    pub video: Arc<TrackLocalStaticRTP>,
    pub audio: Arc<TrackLocalStaticRTP>,
}

/// Relies on `TrackLocalStaticRTP::new`: builds a local RTP track announcing
/// the H.264 video MIME type.
#[verifier::external_body]
fn new_video_track() -> TrackLocalStaticRTP {
    TrackLocalStaticRTP::new(
        webrtc::rtp_transceiver::rtp_codec::RTCRtpCodecCapability {
            mime_type: webrtc::api::media_engine::MIME_TYPE_H264.to_owned(),
            ..Default::default()
        },
        "video".to_owned(),
        "webrtc-rs".to_owned(),
    )
}

/// Relies on `TrackLocalStaticRTP::new`: builds a local RTP track announcing
/// the PCMA audio MIME type.
#[verifier::external_body]
fn new_audio_track() -> TrackLocalStaticRTP {
    TrackLocalStaticRTP::new(
        webrtc::rtp_transceiver::rtp_codec::RTCRtpCodecCapability {
            mime_type: webrtc::api::media_engine::MIME_TYPE_PCMA.to_owned(),
            ..Default::default()
        },
        "audio".to_owned(),
        "webrtc-rs".to_owned(),
    )
}

/// Build the fresh sink pair for a newly seen camera.
pub(crate) fn make_sink_pair() -> SinkPair {
    SinkPair { video: Arc::new(new_video_track()), audio: Arc::new(new_audio_track()) }
}

} // verus!
