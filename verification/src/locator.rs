//! Camera locators, identities and credentials.
//!
//! A camera locator is a URL that may embed `user:pass` credentials.  The
//! registry must key sessions by the *credential-stripped* locator — the
//! `CameraIdentity` — so that two viewers naming the same camera share one
//! upstream session, while the credentials are split off once and handed only
//! to the relay session that owns the connection.

use vstd::prelude::*;

use crate::errors::RelayError;

verus! {

/// Whether the `url` crate accepts this locator string and lets its
/// credentials be stripped.
pub uninterp spec fn locator_ok(s: Seq<char>) -> bool;

/// The credential-stripped form of an accepted locator: the registry key.
pub uninterp spec fn locator_identity(s: Seq<char>) -> Seq<char>;

/// The username embedded in an accepted locator (empty if none).
pub uninterp spec fn locator_username(s: Seq<char>) -> Seq<char>;

/// The password embedded in an accepted locator (empty if none).
pub uninterp spec fn locator_password(s: Seq<char>) -> Seq<char>;

/// The camera's locator with credentials stripped.  Two locators that differ
/// only in their embedded credentials yield the same identity, so the
/// registry deduplicates their sessions.
#[derive(Clone, Debug)]
pub struct CameraIdentity {
    pub url: String,
}

/// Username and password split out of a locator at first use.  Held only by
/// the relay session that owns the upstream connection; never part of the
/// registry key.
#[derive(Clone, Debug)]
pub struct Credentials {
    pub username: String,
    pub password: String,
}

/// Relies on `url::Url::parse`, `Url::username`, `Url::password`,
/// `Url::set_username`, `Url::set_password` and `Url::as_str`: parsing a
/// locator and stripping its credentials depends on the string alone, and
/// the result is `(stripped locator, username, password)` exactly when the
/// crate accepts the string and can strip it.  The last clause relies on the
/// crate's serialization round-trip — parsing `as_str`'s output reproduces
/// the same URL — so the stripped identity is itself an accepted locator,
/// already credential-free, and its own identity.
#[verifier::external_body]
fn split_locator(s: &str) -> (r: Option<(String, String, String)>)
    ensures
        r is Some <==> locator_ok(s@),
        r matches Some(p) ==> p.0@ == locator_identity(s@) && p.1@ == locator_username(s@)
            && p.2@ == locator_password(s@),
        r is Some ==> locator_ok(locator_identity(s@)) && locator_identity(
            locator_identity(s@),
        ) == locator_identity(s@) && locator_username(locator_identity(s@))
            == Seq::<char>::empty() && locator_password(locator_identity(s@))
            == Seq::<char>::empty(),
{
    let mut u = match url::Url::parse(s) {
        Ok(u) => u,
        Err(_) => return None,
    };
    let username = u.username().to_string();
    let password = u.password().unwrap_or_default().to_string();
    if u.set_username("").is_err() {
        return None;
    }
    if u.set_password(None).is_err() {
        return None;
    }
    Some((u.as_str().to_string(), username, password))
}

/// Parse a camera locator and split it into the credential-stripped identity
/// and the credentials.  A locator the URL parser rejects is reported as a
/// `LocatorParse` client error.  Stripping is idempotent: an accepted
/// locator's identity is itself an accepted, credential-free locator with
/// the same identity, so re-negotiating with the stripped form reaches the
/// same camera.
pub fn parse_locator(s: &str) -> (r: Result<(CameraIdentity, Credentials), RelayError>)
    ensures
        r is Ok <==> locator_ok(s@),
        r matches Ok(p) ==> p.0.url@ == locator_identity(s@)
            && p.1.username@ == locator_username(s@)
            && p.1.password@ == locator_password(s@),
        r matches Err(e) ==> e == RelayError::LocatorParse,
        locator_ok(s@) ==> locator_ok(locator_identity(s@)) && locator_identity(
            locator_identity(s@),
        ) == locator_identity(s@) && locator_username(locator_identity(s@))
            == Seq::<char>::empty() && locator_password(locator_identity(s@))
            == Seq::<char>::empty(),
{
    match split_locator(s) {
        Some((url, username, password)) => Ok(
            (CameraIdentity { url }, Credentials { username, password }),
        ),
        None => Err(RelayError::LocatorParse),
    }
}

} // verus!
