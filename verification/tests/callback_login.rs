use wartid_client::api::{Authorization, Client, TokenResponse, UserInfoResponse};
use wartid_client::codec::decode;
use wartid_client::handlers::{routes, Callback, CallbackError, Login, Logout, RouteHandler};
use wartid_client::{WIDContext, WIDContextCredentials, WIDContextUrls};

fn context() -> WIDContext {
    WIDContext {
        urls: WIDContextUrls::from_base_url("https://app.example"),
        credentials: WIDContextCredentials::new("cid".to_owned(), "sec".to_owned()),
    }
}

fn token_response(access: &str, refresh: Option<&str>) -> TokenResponse {
    TokenResponse {
        access_token: access.to_owned(),
        expires_in: 3600,
        token_type: "Bearer".to_owned(),
        refresh_token: refresh.map(|r| r.to_owned()),
    }
}

#[test]
fn from_base_url_appends_routes() {
    let urls = WIDContextUrls::from_base_url("https://app.example");
    assert_eq!(urls.login, "https://app.example/oauth2/wartid/login");
    assert_eq!(urls.callback, "https://app.example/oauth2/wartid/callback");
}

#[test]
fn state_mismatch_is_rejected() {
    let r = Callback::verify_state("abc", Some("abd"));
    assert_eq!(r, Err(CallbackError::StateMismatch));
}

#[test]
fn state_replay_after_consumption_is_rejected() {
    // First callback: mismatch; the stored value is consumed either way, so
    // a replay sees no stored value at all.
    assert_eq!(Callback::verify_state("abc", Some("abd")), Err(CallbackError::StateMismatch));
    assert_eq!(Callback::verify_state("abc", None), Err(CallbackError::StateMissing));
    // Even a replay with the formerly right value fails once consumed.
    assert_eq!(Callback::verify_state("abd", None), Err(CallbackError::StateMissing));
}

#[test]
fn matching_state_is_accepted() {
    assert!(Callback::verify_state("same-state-value", Some("same-state-value")).is_ok());
}

#[test]
fn callback_commit_scenario_full_grant() {
    // Consent completed; the provider grants both tokens, user info is
    // sub u-1 / "Ann" with no email.
    let token = token_response("A1", Some("R1"));
    assert!(Callback::needs_userinfo(&token));
    let info = UserInfoResponse { sub: 1, name: "Ann".to_owned(), email: None };
    let commit = Callback::commit(token, Some(info));
    assert_eq!(commit.access_token, "A1");
    assert_eq!(commit.refresh_token.as_deref(), Some("R1"));
    let payload = commit.session_payload.expect("a refresh grant commits the session");
    let session = decode(&payload).expect("the committed payload must decode");
    assert_eq!(session.id, 1);
    assert_eq!(session.name, "Ann");
    assert_eq!(session.email, None);
    assert_eq!(session.scopes, "");
}

#[test]
fn callback_commit_without_refresh_grant_commits_access_only() {
    let token = token_response("A1", None);
    assert!(!Callback::needs_userinfo(&token));
    let commit = Callback::commit(token, None);
    assert_eq!(commit.access_token, "A1");
    assert_eq!(commit.refresh_token, None);
    assert_eq!(commit.session_payload, None);
}

#[test]
fn login_scopes_compose() {
    let l = Login::basic();
    assert_eq!(l.scope_string(), "basic");
    let l = Login::basic().with_email();
    assert_eq!(l.scope_string(), "basic email");
    let l = Login::basic().with_email().with_email();
    assert_eq!(l.scope_string(), "basic email");
}

#[test]
fn login_respond_builds_authorize_redirect() {
    let ctx = context();
    let plan = Login::basic().respond(&ctx, "STATETOKEN1234567890".to_owned());
    assert_eq!(plan.state_cookie, "STATETOKEN1234567890");
    assert_eq!(plan.state_max_age_seconds, 600);
    assert_eq!(
        plan.location,
        "https://id.wp-corp.eu.org/oauth2/authorize?response_type=code&client_id=cid\
&redirect_uri=https%3A%2F%2Fapp.example%2Foauth2%2Fwartid%2Fcallback\
&scope=basic&state=STATETOKEN1234567890"
    );
}

#[test]
fn login_respond_binds_redirect_target_into_state() {
    let ctx = context();
    let plan = Login::basic()
        .with_email()
        .with_redirection("/after".to_owned())
        .respond(&ctx, "STATETOKEN1234567890".to_owned());
    assert_eq!(plan.state_cookie, "STATETOKEN1234567890/after");
    assert!(plan.location.contains("scope=basic+email"));
    assert!(plan.location.contains("state=STATETOKEN1234567890%2Fafter"));
}

#[test]
fn login_respond_to_draws_alphanumeric_state() {
    let ctx = context();
    let plan = Login::basic().respond_to(&ctx);
    assert_eq!(plan.state_cookie.len(), 20);
    assert!(plan.state_cookie.chars().all(|c| c.is_ascii_alphanumeric()));
    let plan2 = Login::basic().respond_to(&ctx);
    // Two draws almost surely differ; equal draws would mean the state is
    // not random at all.
    assert_ne!(plan.state_cookie, plan2.state_cookie);
}

#[test]
fn token_request_bodies_are_exact() {
    let ctx = context();
    let client = Client::default();
    let data = client.request_token(&ctx, "THECODE");
    assert_eq!(
        data.form_body(),
        "grant_type=authorization_code&code=THECODE&redirect_uri=&client_id=cid&client_secret=sec"
    );
    let data = client.request_token_refresh(&ctx, "R1");
    assert_eq!(
        data.form_body(),
        "grant_type=refresh_token&refresh_token=R1&redirect_uri=&client_id=cid&client_secret=sec"
    );
}

#[test]
fn userinfo_request_carries_bearer() {
    let client = Client::default();
    let auth = Authorization::new("TOK".to_owned(), "R".to_owned());
    let req = client.request_userinfo(&auth);
    assert_eq!(req.url, "https://id.wp-corp.eu.org/oauth2/userinfo");
    assert_eq!(req.bearer, "Bearer TOK");
}

#[test]
fn logout_clears_all_three_cookies() {
    let plan = Logout(None).respond();
    assert_eq!(plan.remove_access, "wartid_a");
    assert_eq!(plan.remove_refresh, "wartid_r");
    assert_eq!(plan.remove_session, "wartid_s");
    assert_eq!(plan.location, "/");
    let plan = Logout(Some("/bye".to_owned())).respond();
    assert_eq!(plan.location, "/bye");
}

#[test]
fn routes_mount_login_and_callback() {
    let rs = routes(false);
    assert_eq!(rs.len(), 2);
    assert_eq!(rs[0].path, "/login");
    match &rs[0].handler {
        RouteHandler::LoginRoute(l) => assert_eq!(l.requested_scopes, vec!["basic".to_owned()]),
        _ => panic!("first route must be the login"),
    }
    assert_eq!(rs[1].path, "/callback");
    assert!(matches!(rs[1].handler, RouteHandler::CallbackRoute(_)));
    let rs = routes(true);
    match &rs[0].handler {
        RouteHandler::LoginRoute(l) => {
            assert_eq!(l.requested_scopes, vec!["basic".to_owned(), "email".to_owned()])
        },
        _ => panic!("first route must be the login"),
    }
}
