//! The relay session lifecycle: one state machine per camera.
//!
//! A relay session maintains a persistent forwarding pipe from one camera to
//! its published sinks.  The machine decides; an unverified driver performs
//! each returned action against the network (describe, setup, play, read,
//! write, sleep) and feeds the outcome back in as the next event.  Every
//! attempt runs describe → setup video → setup audio → play → read loop; a
//! failure at any step — and the end of any read loop — leads to the same
//! fixed backoff followed by a fresh attempt, indefinitely.  Only an audio
//! setup failure is non-fatal: the attempt plays on with video alone.
//!
//! The stream index map is resolved afresh from each describe result, since
//! indices may change across reconnects.

use vstd::prelude::*;

use crate::demux::{route, spec_route, Route};
use crate::errors::SinkWriteKind;
use crate::media::{resolve_streams, spec_resolve, StreamDesc, StreamIndexMap};

verus! {

/// Fixed delay before retrying a failed or ended upstream connection.  No
/// exponential backoff, no jitter, no retry cap: availability is preferred
/// over back-pressure on a failing camera.
pub const BACKOFF_SECONDS: u64 = 1;

/// Where a session stands in its lifecycle.  `Describing` covers connecting
/// to the camera and describing its streams (one upstream call performs
/// both); a failed or ended attempt goes to `BackingOff`, and the backoff
/// expiring starts the next attempt.
#[derive(Clone, Copy, PartialEq, Eq, Structural, Debug)]
pub enum SessionPhase {
    Disconnected,
    Describing,
    SetupVideo,
    SetupAudio,
    AwaitingPlay,
    Playing,
    BackingOff,
}

/// What the upstream side reports to the machine.
#[derive(Debug)]
pub enum UpstreamEvent {
    /// Initial start, or the backoff interval expired.
    Start,
    /// The describe step returned this stream list.
    DescribeOk(Vec<StreamDesc>),
    DescribeFailed,
    SetupVideoOk,
    SetupVideoFailed,
    SetupAudioOk,
    SetupAudioFailed,
    PlayOk,
    PlayFailed,
    /// A media-data packet, with its stream index and raw payload.
    MediaPacket { stream_id: usize, payload: Vec<u8> },
    /// A control (non-media) packet: discarded silently.
    ControlPacket,
    /// Any other item the upstream client produced: logged and discarded.
    UnknownItem,
    /// The upstream stream ended.
    EndOfStream,
    /// A transport error while reading.
    ReadFailed,
    /// The previous sink write succeeded.
    WriteOk,
    /// The previous sink write failed; never fatal to the session.
    WriteFailed(SinkWriteKind),
}

/// What the driver must do next.
#[derive(PartialEq, Eq, Debug)]
pub enum SessionAction {
    /// Connect to the camera and describe its streams.
    Describe,
    /// Set up the upstream stream at this index as the video stream.
    SetupVideo(usize),
    /// Set up the upstream stream at this index as the audio stream.
    SetupAudio(usize),
    /// Issue the play step.
    Play,
    /// Pull the next upstream event.
    ReadNext,
    /// Write this payload to the camera's video sink, unchanged.
    WriteVideo(Vec<u8>),
    /// Write this payload to the camera's audio sink, unchanged.
    WriteAudio(Vec<u8>),
    /// The packet matched neither resolved index: log the unknown stream
    /// index and drop the packet.
    DropUnknown(usize),
    /// Sleep for `BACKOFF_SECONDS`, then feed `Start`.
    Backoff,
}

/// One camera's relay session state.
#[derive(Clone, Copy, PartialEq, Eq, Debug)]
pub struct RelaySession {
    pub phase: SessionPhase,
    /// The index map of the current attempt, from its describe result.
    pub indices: Option<StreamIndexMap>,
    /// Whether the current attempt's audio setup succeeded.  An attempt
    /// whose audio setup failed still plays, video-only.
    pub audio_ok: bool,
}

/// The state every attempt starts from, and the result of every failure:
/// back off, forget the attempt's indices, and retry.
pub open spec fn spec_backoff() -> (RelaySession, SessionAction) {
    (
        RelaySession { phase: SessionPhase::BackingOff, indices: None, audio_ok: false },
        SessionAction::Backoff,
    )
}

/// The complete transition table.  An event that does not belong to the
/// current phase is treated as a failed attempt: back off and retry.
pub open spec fn spec_step(pre: RelaySession, ev: UpstreamEvent) -> (RelaySession, SessionAction) {
    match ev {
        UpstreamEvent::Start => if pre.phase is Disconnected || pre.phase is BackingOff {
            (
                RelaySession { phase: SessionPhase::Describing, indices: None, audio_ok: false },
                SessionAction::Describe,
            )
        } else {
            spec_backoff()
        },
        UpstreamEvent::DescribeOk(streams) => if pre.phase is Describing {
            match spec_resolve(streams@) {
                Some(m) => (
                    RelaySession {
                        phase: SessionPhase::SetupVideo,
                        indices: Some(m),
                        audio_ok: false,
                    },
                    SessionAction::SetupVideo(m.video),
                ),
                None => spec_backoff(),
            }
        } else {
            spec_backoff()
        },
        UpstreamEvent::DescribeFailed => spec_backoff(),
        UpstreamEvent::SetupVideoOk => if pre.phase is SetupVideo {
            match pre.indices {
                Some(m) => (
                    RelaySession {
                        phase: SessionPhase::SetupAudio,
                        indices: pre.indices,
                        audio_ok: false,
                    },
                    SessionAction::SetupAudio(m.audio),
                ),
                None => spec_backoff(),
            }
        } else {
            spec_backoff()
        },
        UpstreamEvent::SetupVideoFailed => spec_backoff(),
        UpstreamEvent::SetupAudioOk => if pre.phase is SetupAudio && pre.indices is Some {
            (
                RelaySession { phase: SessionPhase::AwaitingPlay, indices: pre.indices, audio_ok: true },
                SessionAction::Play,
            )
        } else {
            spec_backoff()
        },
        UpstreamEvent::SetupAudioFailed => if pre.phase is SetupAudio && pre.indices is Some {
            (
                RelaySession {
                    phase: SessionPhase::AwaitingPlay,
                    indices: pre.indices,
                    audio_ok: false,
                },
                SessionAction::Play,
            )
        } else {
            spec_backoff()
        },
        UpstreamEvent::PlayOk => if pre.phase is AwaitingPlay {
            (
                RelaySession { phase: SessionPhase::Playing, indices: pre.indices, audio_ok: pre.audio_ok },
                SessionAction::ReadNext,
            )
        } else {
            spec_backoff()
        },
        UpstreamEvent::PlayFailed => spec_backoff(),
        UpstreamEvent::MediaPacket { stream_id, payload } => if pre.phase is Playing {
            match pre.indices {
                Some(m) => match spec_route(stream_id, m) {
                    Route::Video => (pre, SessionAction::WriteVideo(payload)),
                    Route::Audio => (pre, SessionAction::WriteAudio(payload)),
                    Route::Unknown => (pre, SessionAction::DropUnknown(stream_id)),
                },
                None => spec_backoff(),
            }
        } else {
            spec_backoff()
        },
        UpstreamEvent::ControlPacket => if pre.phase is Playing {
            (pre, SessionAction::ReadNext)
        } else {
            spec_backoff()
        },
        UpstreamEvent::UnknownItem => if pre.phase is Playing {
            (pre, SessionAction::ReadNext)
        } else {
            spec_backoff()
        },
        UpstreamEvent::EndOfStream => spec_backoff(),
        UpstreamEvent::ReadFailed => spec_backoff(),
        UpstreamEvent::WriteOk => if pre.phase is Playing {
            (pre, SessionAction::ReadNext)
        } else {
            spec_backoff()
        },
        UpstreamEvent::WriteFailed(_) => if pre.phase is Playing {
            (pre, SessionAction::ReadNext)
        } else {
            spec_backoff()
        },
    }
}

impl RelaySession {
    /// A session that has never connected.  Feeding `Start` begins the
    /// first attempt.
    pub fn new() -> (r: RelaySession)
        ensures
            r.phase is Disconnected,
            r.indices is None,
            !r.audio_ok,
    {
        RelaySession { phase: SessionPhase::Disconnected, indices: None, audio_ok: false }
    }

    fn go_backoff(&mut self) -> (act: SessionAction)
        ensures
            *final(self) == spec_backoff().0,
            act == spec_backoff().1,
    {
        *self = RelaySession { phase: SessionPhase::BackingOff, indices: None, audio_ok: false };
        SessionAction::Backoff
    }

    /// Take one upstream event and decide the next action, exactly as the
    /// transition table `spec_step` says.
    pub fn step(&mut self, ev: UpstreamEvent) -> (act: SessionAction)
        ensures
            *final(self) == spec_step(*old(self), ev).0,
            act == spec_step(*old(self), ev).1,
    {
        match ev {
            UpstreamEvent::Start => {
                if matches!(self.phase, SessionPhase::Disconnected)
                    || matches!(self.phase, SessionPhase::BackingOff) {
                    *self = RelaySession {
                        phase: SessionPhase::Describing,
                        indices: None,
                        audio_ok: false,
                    };
                    SessionAction::Describe
                } else {
                    self.go_backoff()
                }
            },
            UpstreamEvent::DescribeOk(streams) => {
                if matches!(self.phase, SessionPhase::Describing) {
                    match resolve_streams(&streams) {
                        Some(m) => {
                            *self = RelaySession {
                                phase: SessionPhase::SetupVideo,
                                indices: Some(m),
                                audio_ok: false,
                            };
                            SessionAction::SetupVideo(m.video)
                        },
                        None => self.go_backoff(),
                    }
                } else {
                    self.go_backoff()
                }
            },
            UpstreamEvent::DescribeFailed => self.go_backoff(),
            UpstreamEvent::SetupVideoOk => {
                if matches!(self.phase, SessionPhase::SetupVideo) {
                    match self.indices {
                        Some(m) => {
                            self.phase = SessionPhase::SetupAudio;
                            self.audio_ok = false;
                            SessionAction::SetupAudio(m.audio)
                        },
                        None => self.go_backoff(),
                    }
                } else {
                    self.go_backoff()
                }
            },
            UpstreamEvent::SetupVideoFailed => self.go_backoff(),
            UpstreamEvent::SetupAudioOk => {
                if matches!(self.phase, SessionPhase::SetupAudio) && self.indices.is_some() {
                    self.phase = SessionPhase::AwaitingPlay;
                    self.audio_ok = true;
                    SessionAction::Play
                } else {
                    self.go_backoff()
                }
            },
            UpstreamEvent::SetupAudioFailed => {
                if matches!(self.phase, SessionPhase::SetupAudio) && self.indices.is_some() {
                    self.phase = SessionPhase::AwaitingPlay;
                    self.audio_ok = false;
                    SessionAction::Play
                } else {
                    self.go_backoff()
                }
            },
            UpstreamEvent::PlayOk => {
                if matches!(self.phase, SessionPhase::AwaitingPlay) {
                    self.phase = SessionPhase::Playing;
                    SessionAction::ReadNext
                } else {
                    self.go_backoff()
                }
            },
            UpstreamEvent::PlayFailed => self.go_backoff(),
            UpstreamEvent::MediaPacket { stream_id, payload } => {
                if matches!(self.phase, SessionPhase::Playing) {
                    match self.indices {
                        Some(m) => match route(stream_id, &m) {
                            Route::Video => SessionAction::WriteVideo(payload),
                            Route::Audio => SessionAction::WriteAudio(payload),
                            Route::Unknown => SessionAction::DropUnknown(stream_id),
                        },
                        None => self.go_backoff(),
                    }
                } else {
                    self.go_backoff()
                }
            },
            UpstreamEvent::ControlPacket => {
                if matches!(self.phase, SessionPhase::Playing) {
                    SessionAction::ReadNext
                } else {
                    self.go_backoff()
                }
            },
            UpstreamEvent::UnknownItem => {
                if matches!(self.phase, SessionPhase::Playing) {
                    SessionAction::ReadNext
                } else {
                    self.go_backoff()
                }
            },
            UpstreamEvent::EndOfStream => self.go_backoff(),
            UpstreamEvent::ReadFailed => self.go_backoff(),
            UpstreamEvent::WriteOk => {
                if matches!(self.phase, SessionPhase::Playing) {
                    SessionAction::ReadNext
                } else {
                    self.go_backoff()
                }
            },
            UpstreamEvent::WriteFailed(_) => {
                if matches!(self.phase, SessionPhase::Playing) {
                    SessionAction::ReadNext
                } else {
                    self.go_backoff()
                }
            },
        }
    }
}

/// A media packet received while playing is routed by its stream index with
/// its payload unchanged — to the video sink when the index matches the
/// resolved video index, to the audio sink when it matches the audio index —
/// and a packet matching neither is dropped, leaving the session state
/// untouched and the read loop running.
pub proof fn lemma_media_packet_routing(pre: RelaySession, stream_id: usize, payload: Vec<u8>)
    requires
        pre.phase is Playing,
        pre.indices is Some,
    ensures
        ({
            let m = pre.indices->Some_0;
            let (post, act) = spec_step(
                pre,
                UpstreamEvent::MediaPacket { stream_id, payload },
            );
            &&& post == pre
            &&& stream_id == m.video ==> act == SessionAction::WriteVideo(payload)
            &&& (stream_id != m.video && stream_id == m.audio) ==> act
                == SessionAction::WriteAudio(payload)
            &&& (stream_id != m.video && stream_id != m.audio) ==> act
                == SessionAction::DropUnknown(stream_id)
        }),
{
}

/// An upstream read failure or end-of-stream while playing ends the attempt
/// the same way a connect failure does: the session backs off for the fixed
/// interval instead of stopping, and a sink write failure does not end the
/// attempt at all.
pub proof fn lemma_read_failure_backs_off(pre: RelaySession, k: SinkWriteKind)
    requires
        pre.phase is Playing,
    ensures
        spec_step(pre, UpstreamEvent::EndOfStream) == spec_backoff(),
        spec_step(pre, UpstreamEvent::ReadFailed) == spec_backoff(),
        spec_step(pre, UpstreamEvent::WriteFailed(k)) == (pre, SessionAction::ReadNext),
{
}

/// A successful attempt follows the lifecycle in order — describe, set up
/// the resolved video stream, set up the resolved audio stream, play, read —
/// and ends playing with exactly the index map resolved from this attempt's
/// stream list.  An audio setup failure does not abort the attempt: the
/// session still plays, video-only, and remembers that its audio is down.
pub proof fn lemma_successful_attempt(s: RelaySession, streams: Vec<StreamDesc>, audio_up: bool)
    requires
        s.phase is Disconnected || s.phase is BackingOff,
        spec_resolve(streams@) is Some,
    ensures
        ({
            let m = spec_resolve(streams@)->Some_0;
            let audio_ev = if audio_up {
                UpstreamEvent::SetupAudioOk
            } else {
                UpstreamEvent::SetupAudioFailed
            };
            let (s1, a1) = spec_step(s, UpstreamEvent::Start);
            let (s2, a2) = spec_step(s1, UpstreamEvent::DescribeOk(streams));
            let (s3, a3) = spec_step(s2, UpstreamEvent::SetupVideoOk);
            let (s4, a4) = spec_step(s3, audio_ev);
            let (s5, a5) = spec_step(s4, UpstreamEvent::PlayOk);
            &&& a1 == SessionAction::Describe
            &&& a2 == SessionAction::SetupVideo(m.video)
            &&& a3 == SessionAction::SetupAudio(m.audio)
            &&& a4 == SessionAction::Play
            &&& a5 == SessionAction::ReadNext
            &&& s5.phase is Playing
            &&& s5.indices == Some(m)
            &&& s5.audio_ok == audio_up
        }),
{
}

/// Running the machine through a sequence of events, collecting its actions.
pub open spec fn spec_run(s: RelaySession, evs: Seq<UpstreamEvent>) -> (
    RelaySession,
    Seq<SessionAction>,
)
    decreases evs.len(),
{
    if evs.len() == 0 {
        (s, Seq::empty())
    } else {
        let (s1, a) = spec_step(s, evs[0]);
        let (s2, acts) = spec_run(s1, evs.drop_first());
        (s2, seq![a] + acts)
    }
}

/// `n` consecutive failed reconnect attempts: wake, describe, fail, repeat.
pub open spec fn retry_events(n: nat) -> Seq<UpstreamEvent>
    decreases n,
{
    if n == 0 {
        Seq::empty()
    } else {
        seq![UpstreamEvent::Start, UpstreamEvent::DescribeFailed] + retry_events((n - 1) as nat)
    }
}

/// The actions those attempts must produce: a describe after every backoff,
/// a backoff after every failure.
pub open spec fn retry_actions(n: nat) -> Seq<SessionAction>
    decreases n,
{
    if n == 0 {
        Seq::empty()
    } else {
        seq![SessionAction::Describe, SessionAction::Backoff] + retry_actions((n - 1) as nat)
    }
}

/// The session retries indefinitely: from backoff, any number of consecutive
/// failed attempts produces exactly a describe (after the fixed backoff
/// interval) and a fresh backoff per attempt, and leaves the session backing
/// off again, ready for the next attempt.  No failure count stops it.
pub proof fn lemma_reconnects_indefinitely(s: RelaySession, n: nat)
    requires
        s.phase is BackingOff,
    ensures
        spec_run(s, retry_events(n)).0.phase is BackingOff,
        spec_run(s, retry_events(n)).1 == retry_actions(n),
    decreases n,
{
    if n > 0 {
        let evs = retry_events(n);
        let rest = retry_events((n - 1) as nat);
        let tail = seq![UpstreamEvent::DescribeFailed] + rest;
        let s1 = spec_step(s, UpstreamEvent::Start).0;
        let a1 = spec_step(s, UpstreamEvent::Start).1;
        let s2 = spec_step(s1, UpstreamEvent::DescribeFailed).0;
        let a2 = spec_step(s1, UpstreamEvent::DescribeFailed).1;
        assert(s1.phase is Describing && a1 == SessionAction::Describe);
        assert(s2.phase is BackingOff && a2 == SessionAction::Backoff);
        lemma_reconnects_indefinitely(s2, (n - 1) as nat);
        assert(evs == seq![UpstreamEvent::Start, UpstreamEvent::DescribeFailed] + rest);
        assert(evs[0] == UpstreamEvent::Start);
        assert(evs.drop_first() =~= tail);
        assert(spec_run(s, evs) == (
            spec_run(s1, tail).0,
            seq![a1] + spec_run(s1, tail).1,
        ));
        assert(tail[0] == UpstreamEvent::DescribeFailed);
        assert(tail.drop_first() =~= rest);
        assert(spec_run(s1, tail) == (
            spec_run(s2, rest).0,
            seq![a2] + spec_run(s2, rest).1,
        ));
        assert(spec_run(s, evs).1 == seq![a1] + (seq![a2] + retry_actions((n - 1) as nat)));
        assert(seq![a1] + (seq![a2] + retry_actions((n - 1) as nat)) =~= seq![
            SessionAction::Describe,
            SessionAction::Backoff,
        ] + retry_actions((n - 1) as nat));
        assert(spec_run(s, evs).1 == retry_actions(n));
    }
}

} // verus!
