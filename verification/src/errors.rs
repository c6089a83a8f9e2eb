//! The relay's error taxonomy and its boundary classification.
//!
//! Upstream failures (`UpstreamConnect`, `UpstreamRead`) are contained inside
//! the relay session: they are never surfaced to a viewer and always lead to
//! backoff-and-retry.  Sink write failures are non-fatal to the session; a
//! write that failed only because no viewer is currently subscribed is benign.
//! Locator, offer and negotiation failures are surfaced to the caller as a
//! client error.

use vstd::prelude::*;

verus! {

/// Why a sink write failed.
#[derive(Clone, Copy, PartialEq, Eq, Structural, Debug)]
pub enum SinkWriteKind {
    /// The sink currently has no subscriber; expected before any viewer has
    /// joined or after all viewers have left.
    NoActiveConsumer,
    /// Any other write failure.
    Other,
}

/// Every failure the relay distinguishes.
#[derive(Clone, Copy, PartialEq, Eq, Structural, Debug)]
pub enum RelayError {
    /// The camera locator string could not be parsed.
    LocatorParse,
    /// The viewer's SDP offer could not be parsed.
    OfferParse,
    /// Connect, describe, setup or play failed, or a required stream was
    /// absent from the camera's stream list.
    UpstreamConnect,
    /// A transport failure or end-of-stream while playing.
    UpstreamRead,
    /// A sink rejected a packet write.
    SinkWrite(SinkWriteKind),
    /// Peer-connection construction or answer generation failed.
    Negotiation,
}

/// Errors surfaced to the viewer as a client error; upstream and sink
/// failures are contained inside the relay session instead.
pub open spec fn spec_is_client_error(e: RelayError) -> bool {
    e is LocatorParse || e is OfferParse || e is Negotiation
}

impl RelayError {
    /// Whether this failure is reported to the caller as a client error.
    pub fn is_client_error(&self) -> (r: bool)
        ensures
            r == spec_is_client_error(*self),
    {
        match self {
            RelayError::LocatorParse => true,
            RelayError::OfferParse => true,
            RelayError::Negotiation => true,
            _ => false,
        }
    }

    /// Whether this failure may end the current upstream attempt.  Only
    /// upstream read failures (and end-of-stream) do; sink write failures
    /// never do.
    pub fn ends_attempt(&self) -> (r: bool)
        ensures
            r == (*self is UpstreamRead),
    {
        matches!(self, RelayError::UpstreamRead)
    }

    /// The diagnostic text reported for this failure.
    pub fn message(&self) -> (r: &'static str)
        ensures
            r@ == spec_message(*self),
    {
        proof {
            reveal_strlit("error parsing camera locator");
            reveal_strlit("error parsing SDP offer");
            reveal_strlit("failed to connect to upstream camera");
            reveal_strlit("upstream stream ended or failed");
            reveal_strlit("no active consumer for sink");
            reveal_strlit("sink write failed");
            reveal_strlit("error creating SDP answer");
        }
        match self {
            RelayError::LocatorParse => "error parsing camera locator",
            RelayError::OfferParse => "error parsing SDP offer",
            RelayError::UpstreamConnect => "failed to connect to upstream camera",
            RelayError::UpstreamRead => "upstream stream ended or failed",
            RelayError::SinkWrite(SinkWriteKind::NoActiveConsumer) => "no active consumer for sink",
            RelayError::SinkWrite(SinkWriteKind::Other) => "sink write failed",
            RelayError::Negotiation => "error creating SDP answer",
        }
    }
}

/// The diagnostic text for each failure.
pub open spec fn spec_message(e: RelayError) -> Seq<char> {
    match e {
        RelayError::LocatorParse => "error parsing camera locator"@,
        RelayError::OfferParse => "error parsing SDP offer"@,
        RelayError::UpstreamConnect => "failed to connect to upstream camera"@,
        RelayError::UpstreamRead => "upstream stream ended or failed"@,
        RelayError::SinkWrite(SinkWriteKind::NoActiveConsumer) => "no active consumer for sink"@,
        RelayError::SinkWrite(SinkWriteKind::Other) => "sink write failed"@,
        RelayError::Negotiation => "error creating SDP answer"@,
    }
}

} // verus!
