//! The packet demultiplexer: route each received media packet to the correct
//! sink by its upstream stream index.
//!
//! A packet whose stream index matches the resolved video index goes to the
//! video sink, one matching the audio index goes to the audio sink, and any
//! other packet is dropped (with a diagnostic) without disturbing the
//! session.  Sink write failures are never fatal to the read loop; only
//! upstream read failures end an attempt.

use vstd::prelude::*;

use crate::media::StreamIndexMap;

verus! {

/// Where a received packet goes.
#[derive(Clone, Copy, PartialEq, Eq, Structural, Debug)]
pub enum Route {
    /// Write the payload to the video sink.
    Video,
    /// Write the payload to the audio sink.
    Audio,
    /// The index matches neither resolved stream: drop the packet.
    Unknown,
}

/// The routing rule: the video index is checked first, then the audio index.
pub open spec fn spec_route(stream_id: usize, m: StreamIndexMap) -> Route {
    if stream_id == m.video {
        Route::Video
    } else if stream_id == m.audio {
        Route::Audio
    } else {
        Route::Unknown
    }
}

/// Route one packet by its stream index.
pub fn route(stream_id: usize, m: &StreamIndexMap) -> (r: Route)
    ensures
        r == spec_route(stream_id, *m),
{
    if stream_id == m.video {
        Route::Video
    } else if stream_id == m.audio {
        Route::Audio
    } else {
        Route::Unknown
    }
}

} // verus!
