//! The three protocol phases: login redirect, callback completion, logout.
//!
//! Each handler computes a plan of plain values — cookies to set or remove
//! and a location to redirect to — which the embedding application carries
//! out against its HTTP framework.

use vstd::prelude::*;
use vstd::string::StrSliceExecFns;
use vstd::string::StringExecFns;
use rand::Rng;
use crate::api::{TokenResponse, UserInfoResponse, form_encoding_of, urlencode_pairs, pairs_view,
    user_session_view, ExchangeError};
use crate::codec::{encode, encode_spec};
use crate::WIDContext;

verus! {

/// Route to initiate the authentication protocol.
pub struct Login {
    /// A path to redirect to once the flow reaches its end.
    pub redirect_to: Option<String>,
    /// Requested scopes, in request order, without duplicates.
    pub requested_scopes: Vec<String>,
}

impl Login {
    pub open spec fn scopes_view(&self) -> Seq<Seq<char>> {
        Seq::new(self.requested_scopes@.len(), |i: int| self.requested_scopes@[i]@)
    }

    /// Constructs the most basic scopes request.
    pub fn basic() -> (r: Self)
        ensures
            r.redirect_to is None,
            r.scopes_view() =~= seq!["basic"@],
    {
        let mut scopes: Vec<String> = Vec::new();
        scopes.push("basic".to_owned());
        let r = Self { redirect_to: None, requested_scopes: scopes };
        proof {
            assert(r.scopes_view() =~= seq!["basic"@]);
        }
        r
    }

    /// Adds the email requirement to the scopes; already-requested scopes
    /// are not repeated.
    pub fn with_email(self) -> (r: Self)
        ensures
            r.redirect_to == self.redirect_to,
            r.scopes_view() =~= if self.scopes_view().contains("email"@) {
                self.scopes_view()
            } else {
                self.scopes_view().push("email"@)
            },
    {
        let mut found = false;
        let mut i: usize = 0;
        let email: String = "email".to_owned();
        while i < self.requested_scopes.len()
            invariant
                i <= self.requested_scopes@.len(),
                email@ == "email"@,
                found <==> exists|j: int| 0 <= j < i && self.scopes_view()[j] == "email"@,
            decreases self.requested_scopes@.len() - i,
        {
            let eq = self.requested_scopes[i] == email;
            if eq {
                found = true;
            }
            proof {
                if eq {
                    assert(self.scopes_view()[i as int] == "email"@);
                } else {
                    assert(self.scopes_view()[i as int] != "email"@);
                }
            }
            i = i + 1;
        }
        let mut scopes = self.requested_scopes;
        let ghost old_view = Seq::new(scopes@.len(), |i: int| scopes@[i]@);
        if !found {
            scopes.push(email);
        }
        let r = Self { redirect_to: self.redirect_to, requested_scopes: scopes };
        proof {
            assert(old_view =~= self.scopes_view());
            if found {
                assert(self.scopes_view().contains("email"@));
                assert(r.scopes_view() =~= self.scopes_view());
            } else {
                assert(!self.scopes_view().contains("email"@));
                assert(r.scopes_view() =~= self.scopes_view().push("email"@));
            }
        }
        r
    }

    /// Adds or replaces the redirection URL of the flow.
    pub fn with_redirection(self, url: String) -> (r: Self)
        ensures
            r.redirect_to matches Some(u) && u@ == url@,
            r.scopes_view() =~= self.scopes_view(),
    {
        let r = Self { redirect_to: Some(url), requested_scopes: self.requested_scopes };
        proof {
            assert(r.scopes_view() =~= self.scopes_view());
        }
        r
    }

    /// The scopes space-joined, as the authorize query carries them.
    pub fn scope_string(&self) -> (r: String)
        ensures
            r@ == join_spaces(self.scopes_view()),
    {
        let mut out = String::new();
        let mut i: usize = 0;
        proof {
            reveal_strlit(" ");
        }
        while i < self.requested_scopes.len()
            invariant
                i <= self.requested_scopes@.len(),
                " "@ =~= seq![' '],
                out@ == join_spaces(self.scopes_view().take(i as int)),
            decreases self.requested_scopes@.len() - i,
        {
            if i > 0 {
                out.append(" ");
            }
            out.append(self.requested_scopes[i].as_str());
            proof {
                let sv = self.scopes_view();
                assert(sv.take(i + 1).drop_last() =~= sv.take(i as int));
                assert(sv.take(i + 1).last() == sv[i as int]);
            }
            i = i + 1;
        }
        proof {
            assert(self.scopes_view().take(self.requested_scopes@.len() as int) =~= self
                .scopes_view());
        }
        out
    }

    /// Computes the login redirect for a freshly drawn anti-forgery state
    /// token: the state cookie binds the caller-supplied redirect target by
    /// appending it, and the location carries the authorize query.
    pub fn respond(self, context: &WIDContext, state_token: String) -> (r: LoginRedirectPlan)
        ensures
            login_plan_for(self, context, state_token@, r),
    {
        let mut state = state_token;
        match &self.redirect_to {
            Some(red) => {
                state.append(red.as_str());
            },
            None => {},
        }
        let scope = self.scope_string();
        let mut pairs: Vec<(String, String)> = Vec::new();
        pairs.push(("response_type".to_owned(), "code".to_owned()));
        pairs.push(("client_id".to_owned(), context.credentials.client_id.clone()));
        pairs.push(("redirect_uri".to_owned(), context.urls.callback.clone()));
        pairs.push(("scope".to_owned(), scope));
        pairs.push(("state".to_owned(), state.clone()));
        proof {
            assert(pairs_view(pairs@) =~= authorize_pairs(
                context.credentials.client_id@,
                context.urls.callback@,
                join_spaces(self.scopes_view()),
                state@,
            ));
        }
        let query = urlencode_pairs(&pairs);
        let mut location = "https://id.wp-corp.eu.org/oauth2/authorize?".to_owned();
        location.append(query.as_str());
        LoginRedirectPlan { state_cookie: state, state_max_age_seconds: 600, location }
    }

    /// Draws the random state token and computes the login redirect.
    pub fn respond_to(self, context: &WIDContext) -> (r: LoginRedirectPlan)
        ensures
            exists|st: Seq<char>|
                state_token_wf(st) && #[trigger] login_plan_for(self, context, st, r),
    {
        let token = rand_state();
        let ghost st = token@;
        let ghost me = self;
        let r = self.respond(context, token);
        proof {
            assert(state_token_wf(st) && login_plan_for(me, context, st, r));
        }
        r
    }
}

/// The authorize-query pairs, in the order they are sent.
pub open spec fn authorize_pairs(
    client_id: Seq<char>,
    redirect_uri: Seq<char>,
    scope: Seq<char>,
    state: Seq<char>,
) -> Seq<(Seq<char>, Seq<char>)> {
    seq![
        ("response_type"@, "code"@),
        ("client_id"@, client_id),
        ("redirect_uri"@, redirect_uri),
        ("scope"@, scope),
        ("state"@, state),
    ]
}

/// What [`Login::respond`] promises of its plan, for the state token it was
/// given.
pub open spec fn login_plan_for(
    login: Login,
    context: &WIDContext,
    state_token: Seq<char>,
    r: LoginRedirectPlan,
) -> bool {
    &&& r.state_cookie@ == state_token + (match login.redirect_to {
        Some(u) => u@,
        None => Seq::<char>::empty(),
    })
    &&& r.state_max_age_seconds == 600
    &&& r.location@ == "https://id.wp-corp.eu.org/oauth2/authorize?"@ + form_encoding_of(
        authorize_pairs(
            context.credentials.client_id@,
            context.urls.callback@,
            join_spaces(login.scopes_view()),
            r.state_cookie@,
        ),
    )
}

/// The login redirect: the anti-forgery cookie to set (short-lived) and the
/// provider URL to redirect to, temporarily.
pub struct LoginRedirectPlan {
    /// Value for the anti-forgery state cookie.
    pub state_cookie: String,
    /// Lifetime of that cookie in seconds (ten minutes).
    pub state_max_age_seconds: u64,
    /// The provider's authorize endpoint with the full query.
    pub location: String,
}

/// A well-formed anti-forgery token: 20 alphanumeric characters.
pub open spec fn state_token_wf(st: Seq<char>) -> bool {
    st.len() == 20 && forall|i: int| 0 <= i < st.len() ==> is_alnum_char(#[trigger] st[i])
}

pub open spec fn is_alnum_char(c: char) -> bool {
    (97 <= c as u32 && c as u32 <= 122) || (65 <= c as u32 && c as u32 <= 90) || (48 <= c as u32
        && c as u32 <= 57)
}

/// Space-joined rendering of the scope list.
pub open spec fn join_spaces(parts: Seq<Seq<char>>) -> Seq<char>
    decreases parts.len(),
{
    if parts.len() == 0 {
        Seq::empty()
    } else if parts.len() == 1 {
        parts[0]
    } else {
        join_spaces(parts.drop_last()) + seq![' '] + parts.last()
    }
}

/// Relies on rand's thread RNG sampling the Alphanumeric distribution:
/// every drawn byte is an ASCII letter or digit, and exactly 20 are drawn.
/// Nothing is assumed about which ones.
#[verifier::external_body]
fn rand_state() -> (r: String)
    ensures
        state_token_wf(r@),
{
    rand::thread_rng()
        .sample_iter(&rand::distributions::Alphanumeric)
        .take(20)
        .map(char::from)
        .collect()
}

/// OAuth2 callback route.
#[derive(Clone, Copy)]
pub struct Callback;

/// Why a callback was rejected.
#[derive(Clone, Copy, Debug, PartialEq, Eq, Structural)]
pub enum CallbackError {
    /// The `state` query parameter differs from the stored value.
    StateMismatch,
    /// No stored state value was present (or it was already consumed).
    StateMissing,
    /// The code exchange or the user-info fetch failed.
    Exchange(ExchangeError),
}

/// The cookie values committed atomically on callback success: either all
/// three, or — when no refresh token was granted — only the access token.
pub struct CallbackCommit {
    /// Session payload, present exactly when a refresh token was granted.
    pub session_payload: Option<String>,
    pub refresh_token: Option<String>,
    pub access_token: String,
}

impl Callback {
    /// Anti-forgery check: compares the callback's `state` parameter
    /// byte-for-byte against the stored value. The stored state is
    /// single-use: the caller removes it whatever the outcome, so a replay
    /// with the same state fails with `StateMissing`.
    pub fn verify_state(param_state: &str, stored_state: Option<&str>) -> (r: Result<
        (),
        CallbackError,
    >)
        ensures
            match stored_state {
                None => r == Err::<(), CallbackError>(CallbackError::StateMissing),
                Some(s) => if s@ == param_state@ {
                    r is Ok
                } else {
                    r == Err::<(), CallbackError>(CallbackError::StateMismatch)
                },
            },
    {
        match stored_state {
            None => Err(CallbackError::StateMissing),
            Some(s) => if str_eq(s, param_state) {
                Ok(())
            } else {
                Err(CallbackError::StateMismatch)
            },
        }
    }

    /// Whether the user-info fetch is to be made: exactly when the exchange
    /// granted a refresh token.
    pub fn needs_userinfo(token: &TokenResponse) -> (r: bool)
        ensures
            r <==> token.refresh_token is Some,
    {
        match &token.refresh_token {
            Some(_) => true,
            None => false,
        }
    }

    /// The atomic commit of a completed callback. With a refresh token
    /// granted, the session payload, the refresh token and the access token
    /// are all written; without one, only the access token (the guard will
    /// later see `MissingRefresh`). Nothing is committed on failure paths —
    /// failures never reach this point.
    pub fn commit(token: TokenResponse, userinfo: Option<UserInfoResponse>) -> (r: CallbackCommit)
        requires
            userinfo is Some <==> token.refresh_token is Some,
        ensures
            r.access_token@ == token.access_token@,
            match token.refresh_token {
                Some(rt) => r.refresh_token matches Some(rt2) && rt2@ == rt@,
                None => r.refresh_token is None,
            },
            match userinfo {
                Some(u) => r.session_payload matches Some(p) && p@ == encode_spec(
                    user_session_view(u),
                ),
                None => r.session_payload is None,
            },
    {
        let session_payload = match userinfo {
            Some(u) => {
                let session = crate::WartIDSession::from_user_info(u);
                Some(encode(&session))
            },
            None => None,
        };
        CallbackCommit { session_payload, refresh_token: token.refresh_token, access_token: token.access_token }
    }
}

/// Character-wise string comparison.
fn str_eq(a: &str, b: &str) -> (r: bool)
    ensures
        r == (a@ == b@),
{
    let alen = a.unicode_len();
    let blen = b.unicode_len();
    if alen != blen {
        return false;
    }
    let mut i: usize = 0;
    while i < alen
        invariant
            i <= alen,
            alen == a@.len(),
            alen == b@.len(),
            forall|j: int| 0 <= j < i ==> a@[j] == b@[j],
        decreases alen - i,
    {
        if a.get_char(i) != b.get_char(i) {
            return false;
        }
        i = i + 1;
    }
    proof {
        assert(a@ =~= b@);
    }
    true
}

/// Logout route. Once logged out, redirects the user to the given target,
/// or else "/".
#[derive(Clone)]
pub struct Logout(pub Option<String>);

/// The logout plan: the three cookies to clear unconditionally (idempotent
/// even if some were already absent) and where to redirect.
pub struct LogoutPlan {
    pub remove_access: String,
    pub remove_refresh: String,
    pub remove_session: String,
    pub location: String,
}

impl Logout {
    /// Clears all three session cookies and redirects.
    pub fn respond(self) -> (r: LogoutPlan)
        ensures
            r.remove_access@ == "wartid_a"@,
            r.remove_refresh@ == "wartid_r"@,
            r.remove_session@ == "wartid_s"@,
            r.location@ == match self.0 {
                Some(u) => u@,
                None => "/"@,
            },
    {
        let location = match self.0 {
            Some(u) => u,
            None => "/".to_owned(),
        };
        LogoutPlan {
            remove_access: "wartid_a".to_owned(),
            remove_refresh: "wartid_r".to_owned(),
            remove_session: "wartid_s".to_owned(),
            location,
        }
    }
}

/// A route the library serves: its path under the mount point and its
/// handler.
pub enum RouteHandler {
    LoginRoute(Login),
    CallbackRoute(Callback),
}

pub struct Route {
    pub path: String,
    pub handler: RouteHandler,
}

/// The two routes to mount: the login redirect and the provider callback.
pub fn routes(with_email: bool) -> (r: Vec<Route>)
    ensures
        r@.len() == 2,
        r@[0].path@ == "/login"@,
        r@[0].handler matches RouteHandler::LoginRoute(l) && l.redirect_to is None
            && l.scopes_view() =~= (if with_email {
            seq!["basic"@, "email"@]
        } else {
            seq!["basic"@]
        }),
        r@[1].path@ == "/callback"@,
        r@[1].handler matches RouteHandler::CallbackRoute(_),
{
    proof {
        reveal_strlit("basic");
        reveal_strlit("email");
        assert("basic"@[0] == 'b');
        assert("email"@[0] == 'e');
        assert("basic"@ != "email"@);
    }
    let login = if with_email {
        let l = Login::basic().with_email();
        proof {
            assert(!seq!["basic"@].contains("email"@)) by {
                assert(forall|j: int| 0 <= j < 1 ==> seq!["basic"@][j] != "email"@);
            }
            assert(l.scopes_view() =~= seq!["basic"@, "email"@]);
        }
        l
    } else {
        Login::basic()
    };
    let mut r: Vec<Route> = Vec::new();
    r.push(Route { path: "/login".to_owned(), handler: RouteHandler::LoginRoute(login) });
    r.push(Route { path: "/callback".to_owned(), handler: RouteHandler::CallbackRoute(Callback) });
    r
}

} // verus!
