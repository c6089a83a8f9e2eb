//! Relays one upstream RTSP camera's live video/audio onto any number of
//! downstream WebRTC viewer sessions without re-encoding.
//!
//! The crate holds the relay's core logic: the source registry that
//! deduplicates upstream sessions per camera, the per-camera relay session
//! state machine (connect, describe, setup, play, read-and-forward,
//! backoff-and-retry), the packet demultiplexer that routes media packets to
//! the correct sink, and the viewer negotiation flow that turns a camera
//! locator and an SDP offer into an SDP answer.
//!
//! The network itself (RTSP transport, WebRTC peering, HTTP) is driven by an
//! unverified shell around this crate; every decision the shell acts on is
//! computed and specified here.

pub mod errors;
pub mod locator;
pub mod media;
pub mod demux;
pub mod tracks;
pub mod registry;
pub mod relay;
pub mod negotiate;
