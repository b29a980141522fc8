//! Client side of an OAuth2 authorization-code flow with refresh-token
//! rotation, bound to cookie storage.
//!
//! The library holds the session/token state machine: deciding whether a
//! cached access token is still valid, driving a single refresh per request,
//! validating session cookies, and computing the cookie write-backs. All
//! network traffic and cookie transport stay outside, in the embedding
//! application, which feeds plain values in and carries plans out.

use vstd::prelude::*;

pub mod api;
pub mod codec;
pub mod guard;
pub mod handlers;

verus! {

/// Local URLs of the two routes this library drives.
pub struct WIDContextUrls {
    /// Login URL (local).
    pub login: String,
    /// Callback URL (local).
    pub callback: String,
}

impl WIDContextUrls {
    /// Derives the login and callback URLs from a base URL given without a
    /// trailing slash.
    pub fn from_base_url(base: &str) -> (r: Self)
        requires
            base@.len() == 0 || base@.last() != '/',
        ensures
            r.login@ == base@ + "/oauth2/wartid/login"@,
            r.callback@ == base@ + "/oauth2/wartid/callback"@,
    {
        let mut login = base.to_owned();
        login.append("/oauth2/wartid/login");
        let mut callback = base.to_owned();
        callback.append("/oauth2/wartid/callback");
        Self { login, callback }
    }
}

/// Client credentials handed to the identity provider; immutable after load
/// and required non-empty.
pub struct WIDContextCredentials {
    pub client_id: String,
    pub client_secret: String,
}

impl WIDContextCredentials {
    pub fn new(client_id: String, client_secret: String) -> (r: Self)
        requires
            client_id@.len() > 0,
            client_secret@.len() > 0,
        ensures
            r.client_id@ == client_id@,
            r.client_secret@ == client_secret@,
    {
        Self { client_id, client_secret }
    }
}

/// Process-wide configuration: local URLs and client credentials.
pub struct WIDContext {
    pub urls: WIDContextUrls,
    pub credentials: WIDContextCredentials,
}

/// Mathematical model of a session record.
#[verifier::ext_equal]
pub ghost struct SessionView {
    pub id: u128,
    pub name: Seq<char>,
    pub email: Option<Seq<char>>,
    pub scopes: Seq<char>,
}

/// The session record persisted in the session cookie: who the user is.
/// Immutable once constructed for a request.
pub struct WartIDSession {
    /// Subject identifier, the provider's 128-bit user id.
    pub id: u128,
    pub name: String,
    pub email: Option<String>,
    pub scopes: String,
}

impl View for WartIDSession {
    type V = SessionView;

    open spec fn view(&self) -> SessionView {
        SessionView {
            id: self.id,
            name: self.name@,
            email: match self.email {
                Some(e) => Some(e@),
                None => None,
            },
            scopes: self.scopes@,
        }
    }
}

/// Why no usable session could be produced for a request.
#[derive(Clone, Copy, Debug, PartialEq, Eq, Structural)]
pub enum WartIDSessionError {
    /// No access-token cookie was present.
    MissingAuthorization,
    /// No refresh-token cookie was present.
    MissingRefresh,
    /// No session-payload cookie was present.
    MissingUserinfo,
    /// The session payload failed structural decoding.
    SessionDecoding,
    /// The refresh exchange with the provider failed.
    Refreshing,
}

impl WartIDSessionError {
    /// Returns `true` if this error can be considered as the user being
    /// logged out, that is when one of the session cookies is missing.
    /// Corrupted payloads and failed refreshes are distinct failure classes.
    pub fn is_logged_out(self) -> (r: bool)
        ensures
            r == self.is_logged_out_spec(),
    {
        match self {
            Self::MissingAuthorization | Self::MissingRefresh | Self::MissingUserinfo => true,
            Self::SessionDecoding | Self::Refreshing => false,
        }
    }

    pub open spec fn is_logged_out_spec(self) -> bool {
        self is MissingAuthorization || self is MissingRefresh || self is MissingUserinfo
    }
}

/// Wraps an optional session: either an active session, or the instruction
/// to redirect the visitor to the login page.
pub struct WartIDSessionOrRedirect {
    pub session: Option<WartIDSession>,
}

impl WartIDSessionOrRedirect {
    /// Classifies a guard outcome: logged-out errors collapse into the
    /// redirect case, other errors still propagate.
    pub fn from_guard(r: Result<WartIDSession, WartIDSessionError>) -> (out: Result<
        Self,
        WartIDSessionError,
    >)
        ensures
            match r {
                Ok(s) => out matches Ok(w) && w.session matches Some(s2) && s2@ =~= s@,
                Err(e) => if e.is_logged_out_spec() {
                    out matches Ok(w) && w.session is None
                } else {
                    out == Err::<Self, WartIDSessionError>(e)
                },
            },
    {
        match r {
            Ok(s) => Ok(Self { session: Some(s) }),
            Err(e) => if e.is_logged_out() {
                Ok(Self { session: None })
            } else {
                Err(e)
            },
        }
    }

    /// Unwraps the session or yields the login path to redirect to.
    pub fn rocket(self) -> (r: Result<WartIDSession, String>)
        ensures
            match self.session {
                Some(s) => r matches Ok(s2) && s2@ =~= s@,
                None => r matches Err(p) && p@ == "/oauth2/wartid/login"@,
            },
    {
        match self.session {
            Some(s) => Ok(s),
            None => Err("/oauth2/wartid/login".to_owned()),
        }
    }
}

} // verus!
