//! Authenticated-request guard: turns the three session cookies into a typed
//! session or a precise error, refreshing the token pair at most once.
//!
//! The guard is a request-scoped state machine. The embedding application
//! reads the cookies, walks the steps below, performs the one network
//! exchange a step may ask for, and writes back exactly the cookies the
//! final state dictates — before the response is finalized, on every path.

use vstd::prelude::*;
use crate::api::{Authorization, ExchangeError, TokenResponse, token_expired_at};
use crate::codec::{decode, decode_spec};
use crate::{WartIDSession, WartIDSessionError};

verus! {

/// What the guard asks for after looking at the two token cookies.
pub enum GuardStep {
    /// No usable token pair; the request carries no session.
    Reject { error: WartIDSessionError },
    /// The access token is expired: exchange the pair's refresh token once,
    /// then fold the outcome in with [`guard_refresh_outcome`].
    NeedsRefresh { authorization: Authorization },
    /// The pair is usable as it stands.
    Ready { authorization: Authorization },
}

/// First guard step: classify the two token cookies, each independently
/// absent, and decide whether the single permitted refresh is needed at
/// `now` (seconds since the Unix epoch).
pub fn guard_begin(access_token: Option<String>, refresh_token: Option<String>, now: u64) -> (r:
    GuardStep)
    ensures
        match (access_token, refresh_token) {
            (None, _) => r matches GuardStep::Reject { error } && error
                == WartIDSessionError::MissingAuthorization,
            (Some(_), None) => r matches GuardStep::Reject { error } && error
                == WartIDSessionError::MissingRefresh,
            (Some(a), Some(rt)) => if token_expired_at(a@, now) {
                r matches GuardStep::NeedsRefresh { authorization } && !authorization.is_dirty()
                    && authorization.access_token_spec() == a@
                    && authorization.refresh_token_spec() == rt@
            } else {
                r matches GuardStep::Ready { authorization } && !authorization.is_dirty()
                    && authorization.access_token_spec() == a@
                    && authorization.refresh_token_spec() == rt@
            },
        },
{
    let access = match access_token {
        Some(a) => a,
        None => {
            return GuardStep::Reject { error: WartIDSessionError::MissingAuthorization };
        },
    };
    let refresh = match refresh_token {
        Some(rt) => rt,
        None => {
            return GuardStep::Reject { error: WartIDSessionError::MissingRefresh };
        },
    };
    let authorization = Authorization::new(access, refresh);
    if authorization.expired(now) {
        GuardStep::NeedsRefresh { authorization }
    } else {
        GuardStep::Ready { authorization }
    }
}

/// Folds the refresh exchange's outcome into the pair: success rotates both
/// tokens (the pair becomes dirty), failure leaves the pair untouched and
/// surfaces as `Refreshing` — no retry, no automatic logout.
pub fn guard_refresh_outcome(
    authorization: &mut Authorization,
    outcome: Result<TokenResponse, ExchangeError>,
) -> (r: Result<(), WartIDSessionError>)
    ensures
        match outcome {
            Ok(token) => {
                &&& r is Ok
                &&& final(authorization).is_dirty()
                &&& final(authorization).access_token_spec() == token.access_token@
                &&& final(authorization).refresh_token_spec() == match token.refresh_token {
                    Some(rt) => rt@,
                    None => old(authorization).refresh_token_spec(),
                }
            },
            Err(_) => {
                &&& r == Err::<(), WartIDSessionError>(WartIDSessionError::Refreshing)
                &&& *final(authorization) == *old(authorization)
            },
        },
{
    match outcome {
        Ok(token) => {
            authorization.apply_refresh(token);
            Ok(())
        },
        Err(_) => Err(WartIDSessionError::Refreshing),
    }
}

/// The cookie values a dirty pair must persist.
pub struct WriteBack {
    pub access_token: String,
    pub refresh_token: String,
}

/// The write-back a pair requires before the response is finalized: exactly
/// the dirty pair's tokens, nothing for a clean pair.
pub fn write_back(authorization: &Authorization) -> (r: Option<WriteBack>)
    ensures
        authorization.is_dirty() <==> r is Some,
        r matches Some(w) ==> w.access_token@ == authorization.access_token_spec()
            && w.refresh_token@ == authorization.refresh_token_spec(),
{
    match authorization {
        Authorization::Clean { .. } => None,
        Authorization::Dirty { access_token, refresh_token } => Some(
            WriteBack {
                access_token: access_token.clone(),
                refresh_token: refresh_token.clone(),
            },
        ),
    }
}

/// Last guard step: the session-payload cookie becomes the typed session.
/// An absent cookie is `MissingUserinfo` (logged out); a payload that fails
/// structural decoding is `SessionDecoding` (not logged out).
pub fn guard_finish(session_payload: Option<&str>) -> (r: Result<WartIDSession, WartIDSessionError>)
    ensures
        match session_payload {
            None => r == Err::<WartIDSession, WartIDSessionError>(
                WartIDSessionError::MissingUserinfo,
            ),
            Some(p) => match decode_spec(p@) {
                Some(v) => r matches Ok(s) && s@ == v,
                None => r == Err::<WartIDSession, WartIDSessionError>(
                    WartIDSessionError::SessionDecoding,
                ),
            },
        },
{
    match session_payload {
        None => Err(WartIDSessionError::MissingUserinfo),
        Some(p) => match decode(p) {
            Ok(s) => Ok(s),
            Err(_) => Err(WartIDSessionError::SessionDecoding),
        },
    }
}

} // verus!
