//! The viewer negotiation flow: camera locator plus SDP offer in, everything
//! the process needs to answer out.
//!
//! The order is fixed and observable: parse the locator (malformed → client
//! error, nothing touched), register the camera — creating its sink pair on
//! first sight — and only then parse the offer.  A malformed offer is a
//! client error, but the registration it reports is as good as a successful
//! one: the entry is retained and the refusal still carries the registration,
//! so the caller starts the camera's one relay session exactly when the
//! entry was created, whatever became of the offer — and a later retry with
//! a valid offer reuses that running session instead of reconnecting to the
//! camera.  Building the viewer peer connection and generating the answer
//! happen outside, against the sink pair the registration names.

use vstd::prelude::*;
use webrtc::peer_connection::sdp::session_description::RTCSessionDescription;

use crate::errors::RelayError;
use crate::locator::{
    locator_identity, locator_ok, locator_password, locator_username, parse_locator,
    CameraIdentity, Credentials,
};
use crate::registry::Registry;

verus! {

/// A parsed SDP session description, carried through to the peer-connection
/// layer that answers it.
#[verifier::external_type_specification]
#[verifier::external_body]
pub struct ExRTCSessionDescription(RTCSessionDescription);

/// Whether webrtc's SDP parser accepts this offer text.
pub uninterp spec fn offer_parse(sdp: Seq<char>) -> bool;

/// Relies on `RTCSessionDescription::offer`: parsing an SDP offer depends on
/// the text alone, and it returns `Ok` exactly when the text parses.
#[verifier::external_body]
fn try_parse_offer(sdp: &str) -> (r: Option<RTCSessionDescription>)
    ensures
        r is Some <==> offer_parse(sdp@),
{
    RTCSessionDescription::offer(sdp.to_string()).ok()
}

/// Parse a viewer's SDP offer; a text the SDP parser rejects is reported as
/// an `OfferParse` client error.
pub fn parse_offer(sdp: &str) -> (r: Result<RTCSessionDescription, RelayError>)
    ensures
        r is Ok <==> offer_parse(sdp@),
        r matches Err(e) ==> e == RelayError::OfferParse,
{
    match try_parse_offer(sdp) {
        Some(o) => Ok(o),
        None => Err(RelayError::OfferParse),
    }
}

/// What registering the camera decided: which camera, its credentials (for
/// the relay session if one must now be started), where its sink pair
/// stands in the registry, and whether this call created the entry.
#[derive(Debug)]
pub struct Registration {
    pub identity: CameraIdentity,
    pub credentials: Credentials,
    /// Registry index of the camera's sink pair.
    pub sink_index: usize,
    /// Whether this call created the entry — and so whether the caller must
    /// now start the camera's one relay session, before letting any other
    /// caller at the registry.
    pub created: bool,
}

/// A successful negotiation: the camera's registration and the parsed offer
/// to answer.
pub struct ViewerAttachment {
    pub registration: Registration,
    pub offer: RTCSessionDescription,
}

/// Why a negotiation was refused.  A refused offer still carries the
/// registration made before offer parsing: the caller must act on its
/// `created` flag exactly as on success.
#[derive(Debug)]
pub enum NegotiateError {
    /// The locator did not parse; nothing was registered.
    BadLocator,
    /// The locator parsed and the camera was registered, but the offer did
    /// not parse.
    BadOffer(Registration),
}

impl NegotiateError {
    /// The failure this refusal surfaces to the viewer.
    pub fn error(&self) -> (e: RelayError)
        ensures
            *self is BadLocator ==> e == RelayError::LocatorParse,
            *self is BadOffer ==> e == RelayError::OfferParse,
    {
        match self {
            NegotiateError::BadLocator => RelayError::LocatorParse,
            NegotiateError::BadOffer(_) => RelayError::OfferParse,
        }
    }
}

/// The registration correctly describes what `negotiate_prepare` did to the
/// registry for this locator: the right identity and credentials, the
/// `created` flag saying whether the identity was absent before, and the
/// index of the identity's entry (the appended one, when created).
pub open spec fn spec_registration_ok(
    g: Registration,
    old_reg: Registry,
    new_reg: Registry,
    locator: Seq<char>,
) -> bool {
    let id = locator_identity(locator);
    &&& g.identity.url@ == id
    &&& g.credentials.username@ == locator_username(locator)
    &&& g.credentials.password@ == locator_password(locator)
    &&& g.created == !old_reg.contains(id)
    &&& g.sink_index < new_reg.len()
    &&& new_reg.keys()[g.sink_index as int] == id
    &&& (g.created ==> g.sink_index == old_reg.len())
}

/// Decide a viewer negotiation: parse the locator, register the camera
/// (creating its sink pair on first sight), then parse the offer.
///
/// A malformed locator changes nothing.  A malformed offer still leaves the
/// camera registered, and the refusal carries the registration so the caller
/// can start the just-created relay session; a retry with a valid offer
/// then reuses it.  On success the attachment's registration names the
/// unique registry entry of the camera's identity.
pub fn negotiate_prepare(reg: &mut Registry, locator: &str, sdp: &str) -> (r: Result<
    ViewerAttachment,
    NegotiateError,
>)
    requires
        old(reg).wf(),
    ensures
        final(reg).wf(),
        !locator_ok(locator@) ==> *final(reg) == *old(reg) && (r matches Err(e) && e
            is BadLocator),
        locator_ok(locator@) ==> ({
            let id = locator_identity(locator@);
            &&& final(reg).contains(id)
            &&& (old(reg).contains(id) ==> *final(reg) == *old(reg))
            &&& (!old(reg).contains(id) ==> final(reg).keys() == old(reg).keys().push(id)
                && final(reg).sink_seq().take(old(reg).len() as int) == old(reg).sink_seq())
            &&& (!offer_parse(sdp@) ==> (r matches Err(e) && e matches NegotiateError::BadOffer(g)
                && spec_registration_ok(g, *old(reg), *final(reg), locator@)))
            &&& (offer_parse(sdp@) ==> (r matches Ok(v) && spec_registration_ok(
                v.registration,
                *old(reg),
                *final(reg),
                locator@,
            )))
        }),
{
    let (identity, credentials) = match parse_locator(locator) {
        Ok(p) => p,
        Err(_) => {
            return Err(NegotiateError::BadLocator);
        },
    };
    let (sink_index, created) = reg.get_or_create(&identity);
    proof {
        if !old(reg).contains(identity.url@) {
            assert(final(reg).keys() =~= old(reg).keys().push(identity.url@));
        }
    }
    let registration = Registration { identity, credentials, sink_index, created };
    match parse_offer(sdp) {
        Ok(offer) => Ok(ViewerAttachment { registration, offer }),
        Err(_) => Err(NegotiateError::BadOffer(registration)),
    }
}

/// Body of the control plane's response when no resource matches a request.
pub fn not_found() -> (r: &'static str)
    ensures
        r@ == "Resource was not found."@,
{
    "Resource was not found."
}

} // verus!
