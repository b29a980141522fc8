//! Token exchange client and the authorization (token pair) state machine.
//!
//! The exchange client only builds requests and interprets plain responses;
//! the embedding application carries them over the network. The
//! [`Authorization`] pair tracks whether the tokens were rotated during the
//! current request (clean vs. dirty) and drives the single permitted refresh.

use vstd::prelude::*;
use vstd::string::StringExecFns;
use crate::{WIDContext, WartIDSession, SessionView};

verus! {

/// Form fields of a token-endpoint exchange, ready to be url-encoded.
pub struct TokenRequestData {
    pub grant_type: String,
    pub code: Option<String>,
    pub refresh_token: Option<String>,
    pub redirect_uri: String,
    pub scope: Option<String>,
    pub client_id: String,
    pub client_secret: String,
}

/// What the provider's token endpoint returns.
pub struct TokenResponse {
    pub access_token: String,
    pub expires_in: u64,
    pub token_type: String,
    /// Absent on a refresh exchange means: the prior refresh token remains
    /// valid and must be preserved.
    pub refresh_token: Option<String>,
}

/// What the provider's user-info endpoint returns.
pub struct UserInfoResponse {
    /// Subject identifier, the provider's 128-bit user id.
    pub sub: u128,
    pub name: String,
    pub email: Option<String>,
}

/// The session record a user-info response materializes into.
pub open spec fn user_session_view(u: UserInfoResponse) -> SessionView {
    SessionView {
        id: u.sub,
        name: u.name@,
        email: match u.email {
            Some(e) => Some(e@),
            None => None,
        },
        scopes: Seq::empty(),
    }
}

impl WartIDSession {
    /// Pure mapping from a user-info response; scopes are left empty.
    pub fn from_user_info(info: UserInfoResponse) -> (r: Self)
        ensures
            r@ =~= user_session_view(info),
    {
        Self { id: info.sub, name: info.name, email: info.email, scopes: String::new() }
    }
}

/// Failure of an outbound exchange with the provider.
#[derive(Clone, Copy, Debug, PartialEq, Eq, Structural)]
pub enum ExchangeError {
    /// Network-level failure (or 5xx).
    TransportError,
    /// Malformed provider response (or 4xx).
    ProtocolError,
}

/// The token pair currently in play for a request.
pub enum Authorization {
    /// As read from storage.
    Clean { access_token: String, refresh_token: String },
    /// Set when the tokens were refreshed. They must be written back to
    /// cookies before the response completes, or the session will be invalid
    /// starting from the next request.
    Dirty { access_token: String, refresh_token: String },
}

impl Authorization {
    pub open spec fn access_token_spec(&self) -> Seq<char> {
        match self {
            Authorization::Clean { access_token, .. } => access_token@,
            Authorization::Dirty { access_token, .. } => access_token@,
        }
    }

    pub open spec fn refresh_token_spec(&self) -> Seq<char> {
        match self {
            Authorization::Clean { refresh_token, .. } => refresh_token@,
            Authorization::Dirty { refresh_token, .. } => refresh_token@,
        }
    }

    /// Whether the pair was rotated during this request.
    pub open spec fn is_dirty(&self) -> bool {
        self matches Authorization::Dirty { .. }
    }

    pub fn new(access_token: String, refresh_token: String) -> (r: Self)
        ensures
            !r.is_dirty(),
            r.access_token_spec() == access_token@,
            r.refresh_token_spec() == refresh_token@,
    {
        Self::Clean { access_token, refresh_token }
    }

    pub fn access_token(&self) -> (r: &str)
        ensures
            r@ == self.access_token_spec(),
    {
        match self {
            Self::Clean { access_token, .. } => access_token.as_str(),
            Self::Dirty { access_token, .. } => access_token.as_str(),
        }
    }

    pub fn refresh_token(&self) -> (r: &str)
        ensures
            r@ == self.refresh_token_spec(),
    {
        match self {
            Self::Clean { refresh_token, .. } => refresh_token.as_str(),
            Self::Dirty { refresh_token, .. } => refresh_token.as_str(),
        }
    }

    /// Whether the access token's expiry claim lies before `now` (seconds
    /// since the Unix epoch). An unreadable claim counts as expired: an
    /// extra refresh is preferred over trusting a malformed token.
    pub fn expired(&self, now: u64) -> (r: bool)
        ensures
            r == token_expired_at(self.access_token_spec(), now),
    {
        match decode_exp_claim(self.access_token()) {
            None => true,
            Some(exp) => exp < now,
        }
    }

    /// Decides the refresh step for `now`: a refresh exchange is to be made
    /// exactly when the access token is expired, and at most that one.
    pub fn refresh_decision(&self, now: u64) -> (r: RefreshDecision)
        ensures
            (r matches RefreshDecision::NeedsRefresh { refresh_token }) <==> token_expired_at(
                self.access_token_spec(),
                now,
            ),
            r matches RefreshDecision::NeedsRefresh { refresh_token } ==> refresh_token@
                == self.refresh_token_spec(),
    {
        if self.expired(now) {
            RefreshDecision::NeedsRefresh { refresh_token: self.refresh_token().to_owned() }
        } else {
            RefreshDecision::Fresh
        }
    }

    /// Applies a successful refresh exchange: the pair becomes dirty, the
    /// access token is replaced, and a response without a new refresh token
    /// keeps the prior one.
    pub fn apply_refresh(&mut self, token: TokenResponse)
        ensures
            final(self).is_dirty(),
            final(self).access_token_spec() == token.access_token@,
            final(self).refresh_token_spec() == match token.refresh_token {
                Some(rt) => rt@,
                None => old(self).refresh_token_spec(),
            },
    {
        let refresh_token = match token.refresh_token {
            Some(rt) => rt,
            None => self.refresh_token().to_owned(),
        };
        *self = Self::Dirty { access_token: token.access_token, refresh_token };
    }
}

/// Outcome of [`Authorization::refresh_decision`].
pub enum RefreshDecision {
    /// The access token is still valid: no exchange.
    Fresh,
    /// Exchange this refresh token once, then fold the outcome back in with
    /// [`Authorization::apply_refresh`].
    NeedsRefresh { refresh_token: String },
}

/// The expiry rule: a token is expired at `now` when its expiry claim is
/// unreadable or lies strictly before `now`.
pub open spec fn token_expired_at(token: Seq<char>, now: u64) -> bool {
    match jwt_exp_claim(token) {
        None => true,
        Some(exp) => exp < now,
    }
}

/// The numeric `exp` claim carried by a JWT, if the text parses as one; a
/// function of the token text alone.
pub uninterp spec fn jwt_exp_claim(token: Seq<char>) -> Option<u64>;

/// Relies on jsonwebtoken::dangerous_insecure_decode: reads a token's claims
/// without verifying the signature (the claim is informational; authenticity
/// is established by the provider accepting the token). `None` when the text
/// does not parse as a JWT or carries no numeric `exp` claim.
#[verifier::external_body]
fn decode_exp_claim(token: &str) -> (r: Option<u64>)
    ensures
        r == jwt_exp_claim(token@),
{
    match jsonwebtoken::dangerous_insecure_decode::<serde_json::Value>(token) {
        Ok(data) => match data.claims.get("exp") {
            Some(v) => v.as_u64(),
            None => None,
        },
        Err(_) => None,
    }
}

/// The pair sequence a form-field record denotes.
pub open spec fn pairs_view(pairs: Seq<(String, String)>) -> Seq<(Seq<char>, Seq<char>)> {
    Seq::new(pairs.len(), |i: int| (pairs[i].0@, pairs[i].1@))
}

/// The application/x-www-form-urlencoded rendering of a sequence of
/// key/value pairs; a function of the pairs alone.
pub uninterp spec fn form_encoding_of(pairs: Seq<(Seq<char>, Seq<char>)>) -> Seq<char>;

/// Relies on serde_urlencoded::to_string: url-encodes a sequence of string
/// pairs as `k=v&k=v`; on string data it does not fail.
#[verifier::external_body]
pub fn urlencode_pairs(pairs: &Vec<(String, String)>) -> (r: String)
    ensures
        r@ == form_encoding_of(pairs_view(pairs@)),
{
    serde_urlencoded::to_string(pairs).unwrap_or(String::new())
}

impl TokenRequestData {
    /// The form fields in the order they are sent.
    pub open spec fn pairs_spec(&self) -> Seq<(Seq<char>, Seq<char>)> {
        seq![("grant_type"@, self.grant_type@)] + (match self.code {
            Some(c) => seq![("code"@, c@)],
            None => Seq::empty(),
        }) + (match self.refresh_token {
            Some(rt) => seq![("refresh_token"@, rt@)],
            None => Seq::empty(),
        }) + seq![("redirect_uri"@, self.redirect_uri@)] + (match self.scope {
            Some(s) => seq![("scope"@, s@)],
            None => Seq::empty(),
        }) + seq![("client_id"@, self.client_id@)] + seq![("client_secret"@, self.client_secret@)]
    }

    /// The url-encoded body of this exchange request.
    pub fn form_body(&self) -> (r: String)
        ensures
            r@ == form_encoding_of(self.pairs_spec()),
    {
        let mut pairs: Vec<(String, String)> = Vec::new();
        pairs.push(("grant_type".to_owned(), self.grant_type.clone()));
        match &self.code {
            Some(c) => { pairs.push(("code".to_owned(), c.clone())); },
            None => {},
        }
        match &self.refresh_token {
            Some(rt) => { pairs.push(("refresh_token".to_owned(), rt.clone())); },
            None => {},
        }
        pairs.push(("redirect_uri".to_owned(), self.redirect_uri.clone()));
        match &self.scope {
            Some(s) => { pairs.push(("scope".to_owned(), s.clone())); },
            None => {},
        }
        pairs.push(("client_id".to_owned(), self.client_id.clone()));
        pairs.push(("client_secret".to_owned(), self.client_secret.clone()));
        proof {
            assert(pairs_view(pairs@) =~= self.pairs_spec());
        }
        urlencode_pairs(&pairs)
    }
}

/// The exchange client: the two provider endpoints it talks to.
pub struct Client {
    pub url_token: String,
    pub url_userinfo: String,
}

impl Default for Client {
    /// The well-known endpoints of the WartID provider.
    fn default() -> (r: Self)
        ensures
            r.url_token@ == "https://id.wp-corp.eu.org/oauth2/token"@,
            r.url_userinfo@ == "https://id.wp-corp.eu.org/oauth2/userinfo"@,
    {
        Self {
            url_token: "https://id.wp-corp.eu.org/oauth2/token".to_owned(),
            url_userinfo: "https://id.wp-corp.eu.org/oauth2/userinfo".to_owned(),
        }
    }
}

/// An authenticated user-info request: target URL and the value of the
/// `Authorization` header.
pub struct UserInfoRequest {
    pub url: String,
    pub bearer: String,
}

impl Client {
    /// Builds the authorization-code exchange (grant_type=authorization_code).
    pub fn request_token(&self, context: &WIDContext, authorization_code: &str) -> (r:
        TokenRequestData)
        ensures
            r.grant_type@ == "authorization_code"@,
            r.code matches Some(c) && c@ == authorization_code@,
            r.refresh_token is None,
            r.redirect_uri@.len() == 0,
            r.scope is None,
            r.client_id@ == context.credentials.client_id@,
            r.client_secret@ == context.credentials.client_secret@,
    {
        TokenRequestData {
            grant_type: "authorization_code".to_owned(),
            code: Some(authorization_code.to_owned()),
            refresh_token: None,
            redirect_uri: String::new(),
            scope: None,
            client_id: context.credentials.client_id.clone(),
            client_secret: context.credentials.client_secret.clone(),
        }
    }

    /// Builds the refresh exchange (grant_type=refresh_token). To be issued
    /// at most once per stale token detected; the caller must not retry-loop.
    pub fn request_token_refresh(&self, context: &WIDContext, refresh_token: &str) -> (r:
        TokenRequestData)
        ensures
            r.grant_type@ == "refresh_token"@,
            r.code is None,
            r.refresh_token matches Some(rt) && rt@ == refresh_token@,
            r.redirect_uri@.len() == 0,
            r.scope is None,
            r.client_id@ == context.credentials.client_id@,
            r.client_secret@ == context.credentials.client_secret@,
    {
        TokenRequestData {
            grant_type: "refresh_token".to_owned(),
            code: None,
            refresh_token: Some(refresh_token.to_owned()),
            redirect_uri: String::new(),
            scope: None,
            client_id: context.credentials.client_id.clone(),
            client_secret: context.credentials.client_secret.clone(),
        }
    }

    /// Builds the authenticated user-info request for the current access
    /// token.
    pub fn request_userinfo(&self, authorization: &Authorization) -> (r: UserInfoRequest)
        ensures
            r.url@ == self.url_userinfo@,
            r.bearer@ == "Bearer "@ + authorization.access_token_spec(),
    {
        let mut bearer = "Bearer ".to_owned();
        bearer.append(authorization.access_token());
        UserInfoRequest { url: self.url_userinfo.clone(), bearer }
    }
}

} // verus!
