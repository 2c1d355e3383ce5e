use openai_codex::callback::OAuthCallback;
use openai_codex::credentials::{OpenAiCodexCredentials, TokenResponse};
use openai_codex::error::CodexError;
use openai_codex::oauth::PkceChallenge;
use openai_codex::state::{
    token_needs_refresh, Freshness, Refresh, RefreshKeeping, RefreshStep, SignIn, State,
    StoredCredentials, CREDENTIAL_KEY, CREDENTIAL_USER, REFRESH_WINDOW_MS,
};
use openai_codex::view::{ConfigurationView, PanelItem};

fn credentials(refresh_token: &str, expires_at_ms: u64) -> OpenAiCodexCredentials {
    OpenAiCodexCredentials {
        access_token: "access".to_string(),
        refresh_token: refresh_token.to_string(),
        expires_at_ms,
        account_id: Some("account".to_string()),
    }
}

fn signed_in(expires_at_ms: u64) -> State {
    let mut state = State::new();
    assert!(state
        .credentials_read(StoredCredentials::Found(credentials("refresh", expires_at_ms)))
        .is_ok());
    state
}

fn response(refresh_token: Option<&str>) -> TokenResponse {
    TokenResponse {
        access_token: "new-access".to_string(),
        refresh_token: refresh_token.map(str::to_string),
        expires_in: Some(100),
        id_token: None,
    }
}

fn started() -> (State, SignIn) {
    let mut state = State::new();
    state.error = Some("earlier".to_string());
    let pkce = PkceChallenge { verifier: "verifier".to_string(), challenge: "challenge".to_string() };
    let sign_in = state.start_sign_in("https://auth.example/", pkce, "state".to_string());
    (state, sign_in)
}

fn refresh_token_of(state: &State) -> Option<&str> {
    state.credentials.as_ref().map(|credentials| credentials.refresh_token.as_str())
}

#[test]
fn secrets_are_kept_under_one_key() {
    assert_eq!(CREDENTIAL_KEY, "https://chatgpt.com/backend-api/codex/oauth");
    assert_eq!(CREDENTIAL_USER, "oauth");
    assert_eq!(REFRESH_WINDOW_MS, 60_000);
}

#[test]
fn a_new_state_is_empty() {
    let state = State::new();
    assert!(state.credentials.is_none());
    assert!(!state.credentials_loaded);
    assert!(state.auth_url.is_none());
    assert!(state.error.is_none());
    assert!(!state.refreshing);
    assert!(!state.is_authenticated());
}

#[test]
fn signed_in_means_a_refresh_token() {
    let mut state = State::new();
    state.credentials = Some(credentials("", 0));
    assert!(!state.is_authenticated());
    state.credentials = Some(credentials("r", 0));
    assert!(state.is_authenticated());
}

#[test]
fn credentials_are_looked_up_once() {
    let mut state = State::new();
    assert_eq!(
        state.load_credentials_if_needed().map(|read| read.key),
        Some("https://chatgpt.com/backend-api/codex/oauth")
    );
    assert!(state.credentials_read(StoredCredentials::Absent).is_ok());
    assert!(state.load_credentials_if_needed().is_none());
    let state = signed_in(0);
    assert!(state.load_credentials_if_needed().is_none());
}

#[test]
fn found_credentials_clear_the_error() {
    let mut state = State::new();
    state.error = Some("earlier".to_string());
    assert!(state.credentials_read(StoredCredentials::Found(credentials("refresh", 9))).is_ok());
    assert!(state.credentials_loaded);
    assert!(state.is_authenticated());
    assert!(state.error.is_none());
    assert_eq!(refresh_token_of(&state), Some("refresh"));
}

#[test]
fn absent_credentials_keep_the_error() {
    let mut state = State::new();
    state.error = Some("earlier".to_string());
    assert!(state.credentials_read(StoredCredentials::Absent).is_ok());
    assert!(state.credentials_loaded);
    assert!(state.credentials.is_none());
    assert_eq!(state.error.as_deref(), Some("earlier"));
}

#[test]
fn unreadable_and_invalid_credentials_change_nothing() {
    let mut state = State::new();
    match state.credentials_read(StoredCredentials::Unreadable("locked".to_string())) {
        Err(error) => assert_eq!(error.message(), "locked"),
        Ok(()) => panic!("read"),
    }
    match state.credentials_read(StoredCredentials::Invalid { line: 1, column: 8 }) {
        Err(error) => {
            assert_eq!(error.message(), "invalid OpenAI Codex credentials: line 1 column 8");
        }
        Ok(()) => panic!("read"),
    }
    assert!(!state.credentials_loaded);
    assert!(state.load_credentials_if_needed().is_some());
}

#[test]
fn stored_credentials_are_kept() {
    let mut state = State::new();
    state.error = Some("earlier".to_string());
    let write = state.store_credentials(credentials("refresh", 3));
    assert_eq!(write.key, CREDENTIAL_KEY);
    assert_eq!(write.user, "oauth");
    assert_eq!(write.credentials.refresh_token, "refresh");
    assert_eq!(write.credentials.expires_at_ms, 3);
    assert!(state.credentials_loaded);
    assert_eq!(refresh_token_of(&state), Some("refresh"));
    assert_eq!(state.error.as_deref(), Some("earlier"));
}

#[test]
fn sign_out_ends_access() {
    let mut state = signed_in(0);
    state.error = Some("earlier".to_string());
    state.auth_url = Some("page".to_string());
    let delete = state.delete_credentials();
    assert_eq!(delete.key, CREDENTIAL_KEY);
    assert!(!state.is_authenticated());
    assert!(state.credentials.is_none());
    assert!(state.credentials_loaded);
    assert!(state.error.is_none());
    assert_eq!(state.auth_url.as_deref(), Some("page"));
    assert!(matches!(
        state.ensure_fresh_token_at("https://a", 0),
        Err(CodexError::SignInRequired)
    ));
}

#[test]
fn fresh_tokens_are_not_refreshed() {
    let mut state = signed_in(160_000);
    assert!(matches!(state.ensure_fresh_token_at("https://a", 100_000), Ok(Freshness::Fresh)));
    assert!(matches!(state.ensure_fresh_token_at("https://a", 0), Ok(Freshness::Fresh)));
    assert!(!state.refreshing);
    let mut state = signed_in(1_060_000);
    assert!(matches!(state.ensure_fresh_token_at("https://a", 1_000_000), Ok(Freshness::Fresh)));
}

#[test]
fn stale_tokens_are_refreshed() {
    for now_ms in [100_001, 159_999, 160_000, 160_001, u64::MAX] {
        let mut state = signed_in(160_000);
        match state.ensure_fresh_token_at("https://a/", now_ms) {
            Ok(Freshness::Stale(refresh)) => {
                assert_eq!(refresh.request.method, "POST");
                assert_eq!(refresh.request.uri, "https://a/oauth/token");
                assert_eq!(
                    refresh.request.body,
                    "grant_type=refresh_token&client_id=app_EMoamEEZ73f0CkXaXp7hrann\
                     &refresh_token=refresh"
                );
                assert_eq!(refresh.previous.refresh_token, "refresh");
                assert_eq!(refresh.previous.expires_at_ms, 160_000);
                assert!(!refresh.retried);
            }
            _ => panic!("fresh"),
        }
        assert!(state.refreshing);
    }
}

#[test]
fn the_window_is_sixty_seconds() {
    assert!(!token_needs_refresh(60_000, 0));
    assert!(token_needs_refresh(59_999, 0));
    assert!(token_needs_refresh(5, 6));
    assert!(token_needs_refresh(0, u64::MAX));
    assert!(!token_needs_refresh(u64::MAX, 0));
    assert!(!token_needs_refresh(u64::MAX, u64::MAX - 60_000));
    assert!(token_needs_refresh(u64::MAX, u64::MAX - 59_999));
}

#[test]
fn freshness_is_judged_by_the_clock() {
    assert!(matches!(signed_in(0).ensure_fresh_token("https://a"), Ok(Freshness::Stale(_))));
    assert!(matches!(signed_in(u64::MAX).ensure_fresh_token("https://a"), Ok(Freshness::Fresh)));
    assert!(matches!(
        State::new().ensure_fresh_token("https://a"),
        Err(CodexError::SignInRequired)
    ));
}

fn stale_refresh(state: &mut State) -> Refresh {
    match state.ensure_fresh_token_at("https://a", 1_000) {
        Ok(Freshness::Stale(refresh)) => refresh,
        _ => panic!("no refresh"),
    }
}

fn kept(step: RefreshStep) -> RefreshKeeping {
    match step {
        RefreshStep::Keep(keeping) => keeping,
        _ => panic!("no credentials"),
    }
}

#[test]
fn callers_share_one_refresh() {
    let mut state = signed_in(0);
    let refresh = stale_refresh(&mut state);
    assert!(matches!(state.ensure_fresh_token_at("https://a", 1_000), Ok(Freshness::Pending)));
    assert!(matches!(state.ensure_fresh_token_at("https://a", 9_000), Ok(Freshness::Pending)));
    assert!(matches!(state.force_refresh("https://a"), Ok(Freshness::Pending)));
    let keeping = kept(refresh.answered(&mut state, Ok(response(None)), 1_000));
    assert!(matches!(state.ensure_fresh_token_at("https://a", 1_000), Ok(Freshness::Pending)));
    assert!(keeping.written(&mut state, Ok(())).is_ok());
    assert!(!state.refreshing);
    assert!(matches!(state.ensure_fresh_token_at("https://a", 1_000), Ok(Freshness::Fresh)));
}

#[test]
fn a_refresh_can_be_forced() {
    let mut state = signed_in(u64::MAX);
    assert!(matches!(
        state.force_refresh("https://a"),
        Ok(Freshness::Stale(refresh)) if refresh.request.uri == "https://a/oauth/token"
    ));
    assert!(state.refreshing);
    assert!(matches!(
        State::new().force_refresh("https://a"),
        Err(CodexError::SignInRequired)
    ));
}

#[test]
fn a_refresh_takes_over_what_was_kept() {
    let mut state = signed_in(0);
    state.error = Some("earlier".to_string());
    let refresh = stale_refresh(&mut state);
    let keeping = kept(refresh.answered(&mut state, Ok(response(None)), 1_000));
    assert_eq!(keeping.write.key, CREDENTIAL_KEY);
    assert_eq!(keeping.write.credentials.access_token, "new-access");
    assert_eq!(keeping.write.credentials.refresh_token, "refresh");
    assert_eq!(keeping.write.credentials.expires_at_ms, 101_000);
    assert_eq!(keeping.write.credentials.account_id.as_deref(), Some("account"));
    assert_eq!(state.error.as_deref(), Some("earlier"));
    assert!(keeping.written(&mut state, Ok(())).is_ok());
    assert!(state.error.is_none());
    assert!(matches!(state.ensure_fresh_token_at("https://a", 1_000), Ok(Freshness::Fresh)));
}

fn endpoint_failure() -> CodexError {
    CodexError::TokenEndpoint {
        status: "500 Internal Server Error".to_string(),
        excerpt: "try later".to_string(),
    }
}

#[test]
fn a_failed_refresh_is_remembered() {
    let mut state = signed_in(0);
    let refresh = stale_refresh(&mut state);
    assert!(matches!(
        refresh.answered(&mut state, Err(endpoint_failure()), 1_000),
        RefreshStep::Failed(CodexError::TokenEndpoint { .. })
    ));
    assert_eq!(
        state.error.as_deref(),
        Some("OpenAI OAuth token endpoint returned 500 Internal Server Error: try later")
    );
    assert_eq!(refresh_token_of(&state), Some("refresh"));
    assert!(!state.refreshing);
    assert!(matches!(state.ensure_fresh_token_at("https://a", 1_000), Ok(Freshness::Stale(_))));
}

#[test]
fn a_refused_refresh_token_signs_out() {
    let mut state = signed_in(0);
    let refresh = stale_refresh(&mut state);
    match refresh.answered(&mut state, Err(CodexError::SignInExpired), 1_000) {
        RefreshStep::SignedOut { delete, error } => {
            assert_eq!(delete.key, CREDENTIAL_KEY);
            assert_eq!(error.message(), "Sign in expired. Please sign in again.");
        }
        _ => panic!("still signed in"),
    }
    assert!(!state.is_authenticated());
    assert!(state.credentials.is_none());
    assert!(state.credentials_loaded);
    assert!(!state.refreshing);
    assert_eq!(state.error.as_deref(), Some("Sign in expired. Please sign in again."));
}

#[test]
fn a_refresh_that_did_not_get_through_is_sent_once_more() {
    let lost = || Err(CodexError::Transport("connection reset".to_string()));
    let mut state = signed_in(0);
    let refresh = stale_refresh(&mut state);
    let again = match refresh.answered(&mut state, lost(), 1_000) {
        RefreshStep::Retry(again) => again,
        _ => panic!("no second try"),
    };
    assert!(state.refreshing);
    assert!(state.error.is_none());
    assert!(again.retried);
    assert_eq!(again.request.uri, "https://a/oauth/token");
    assert!(again.request.body.ends_with("&refresh_token=refresh"));
    assert_eq!(again.previous.refresh_token, "refresh");
    match again.answered(&mut state, lost(), 1_000) {
        RefreshStep::Failed(error) => assert_eq!(error.message(), "connection reset"),
        _ => panic!("a third try"),
    }
    assert!(!state.refreshing);
    assert_eq!(state.error.as_deref(), Some("connection reset"));
    assert!(state.is_authenticated());
}

#[test]
fn a_refresh_that_cannot_be_kept_changes_no_credentials() {
    let mut state = signed_in(0);
    let refresh = stale_refresh(&mut state);
    let keeping = kept(refresh.answered(&mut state, Ok(response(Some("next"))), 1_000));
    match keeping.written(&mut state, Err(CodexError::Service("full".to_string()))) {
        Err(error) => assert_eq!(error.message(), "full"),
        Ok(()) => panic!("kept"),
    }
    assert_eq!(refresh_token_of(&state), Some("refresh"));
    assert!(state.error.is_none());
    assert!(!state.refreshing);
}

#[test]
fn a_sign_in_opens_a_page() {
    let (state, sign_in) = started();
    assert!(sign_in
        .authorization_url
        .starts_with("https://auth.example/oauth/authorize?response_type=code&"));
    assert!(sign_in.authorization_url.contains("&code_challenge=challenge&"));
    assert!(sign_in.authorization_url.contains("&state=state&"));
    assert!(!sign_in.authorization_url.contains("verifier"));
    assert_eq!(sign_in.token_url, "https://auth.example/oauth/token");
    assert_eq!(sign_in.state, "state");
    assert_eq!(sign_in.verifier, "verifier");
    assert_eq!(state.auth_url, Some(sign_in.authorization_url));
    assert!(state.error.is_none());
    assert!(!state.is_authenticated());
}

#[test]
fn every_sign_in_has_secrets_of_its_own() {
    let mut state = State::new();
    let first = state.sign_in("https://auth.example");
    let second = state.sign_in("https://auth.example");
    assert_ne!(first.state, second.state);
    assert_ne!(first.verifier, second.verifier);
    assert_ne!(first.state, first.verifier);
    assert_eq!(first.state.len(), 43);
    assert!(first.authorization_url.contains(&format!("&state={}&", first.state)));
    assert!(!first.authorization_url.contains(&first.verifier));
    assert_eq!(state.auth_url, Some(second.authorization_url));
}

fn callback(state: &str) -> OAuthCallback {
    OAuthCallback { code: "the code".to_string(), state: state.to_string() }
}

#[test]
fn a_sign_in_is_completed() {
    let (mut state, sign_in) = started();
    let exchange = match sign_in.called_back(Ok(callback("state"))) {
        Ok(exchange) => exchange,
        Err(_) => panic!("refused"),
    };
    assert_eq!(exchange.request.uri, "https://auth.example/oauth/token");
    assert_eq!(
        exchange.request.body,
        "grant_type=authorization_code&client_id=app_EMoamEEZ73f0CkXaXp7hrann&code=the+code\
         &code_verifier=verifier\
         &redirect_uri=http%3A%2F%2Flocalhost%3A1455%2Fauth%2Fcallback"
    );
    let keeping = match exchange.answered(Ok(response(Some("refresh"))), 5) {
        Ok(keeping) => keeping,
        Err(_) => panic!("no credentials"),
    };
    assert_eq!(keeping.write.key, CREDENTIAL_KEY);
    assert_eq!(keeping.write.user, CREDENTIAL_USER);
    assert_eq!(keeping.write.credentials.expires_at_ms, 100_005);
    assert!(!state.is_authenticated());
    assert!(keeping.written(&mut state, Ok(())).is_ok());
    assert!(state.is_authenticated());
    assert!(state.credentials_loaded);
    assert!(state.auth_url.is_none());
    assert!(state.error.is_none());
}

#[test]
fn another_state_ends_the_sign_in() {
    for other in ["", "State", "state ", "states"] {
        let (_, sign_in) = started();
        match sign_in.called_back(Ok(callback(other))) {
            Err(error) => assert_eq!(error.message(), "OAuth state did not match"),
            Ok(_) => panic!("accepted"),
        }
    }
}

#[test]
fn a_failed_callback_ends_the_sign_in() {
    let (_, sign_in) = started();
    assert!(matches!(
        sign_in.called_back(Err(CodexError::CallbackTimeout)),
        Err(CodexError::CallbackTimeout)
    ));
}

#[test]
fn a_sign_in_needs_a_refresh_token() {
    let (_, sign_in) = started();
    match sign_in.called_back(Ok(callback("state"))) {
        Ok(exchange) => assert!(matches!(
            exchange.answered(Ok(response(None)), 0),
            Err(CodexError::MissingRefreshToken)
        )),
        Err(_) => panic!("refused"),
    }
    let (_, sign_in) = started();
    match sign_in.called_back(Ok(callback("state"))) {
        Ok(exchange) => assert!(matches!(
            exchange.answered(Err(CodexError::Service("down".to_string())), 0),
            Err(CodexError::Service(_))
        )),
        Err(_) => panic!("refused"),
    }
}

#[test]
fn credentials_that_cannot_be_kept_are_not_taken_over() {
    let (mut state, sign_in) = started();
    let keeping = match sign_in
        .called_back(Ok(callback("state")))
        .and_then(|exchange| exchange.answered(Ok(response(Some("r"))), 0))
    {
        Ok(keeping) => keeping,
        Err(_) => panic!("refused"),
    };
    assert!(keeping.written(&mut state, Err(CodexError::Service("full".to_string()))).is_err());
    assert!(!state.is_authenticated());
    assert!(state.auth_url.is_some());
}

#[test]
fn a_failed_sign_in_closes_the_page() {
    let mut state = signed_in(0);
    state.auth_url = Some("page".to_string());
    state.sign_in_failed(&CodexError::CallbackTimeout);
    assert!(state.auth_url.is_none());
    assert_eq!(state.error.as_deref(), Some("Timed out waiting for OpenAI Codex sign-in"));
    assert!(state.is_authenticated());
}

#[test]
fn a_cancelled_sign_in_is_no_failure() {
    let (mut state, _) = started();
    state.sign_in_failed(&CodexError::Cancelled);
    assert!(state.auth_url.is_none());
    assert!(state.error.is_none());
    assert!(!state.is_authenticated());
}

fn labels(view: &ConfigurationView, state: &State) -> Vec<String> {
    view.render(state).iter().map(PanelItem::label).collect()
}

const LINK: &str = "No ChatGPT subscription? Use the OpenAI provider with an API key.";

const INTRODUCTION: &str =
    "OpenAI Codex uses ChatGPT Plus/Pro OAuth and is separate from OpenAI Platform API keys.";

#[test]
fn panel_opens_while_credentials_are_looked_up() {
    let mut view = ConfigurationView::new();
    let state = State::new();
    assert_eq!(
        labels(&view, &state),
        vec![INTRODUCTION, "Loading credentials…", "Sign in with ChatGPT", LINK]
    );
    view.load_finished();
    assert_eq!(labels(&view, &state), vec![INTRODUCTION, "Sign in with ChatGPT", LINK]);
}

#[test]
fn panel_shows_who_is_signed_in() {
    let mut view = ConfigurationView::new();
    view.load_finished();
    let mut state = signed_in(0);
    assert_eq!(
        labels(&view, &state),
        vec![INTRODUCTION, "ChatGPT account connected", "Sign Out"]
    );
    state.error = Some("went wrong".to_string());
    assert_eq!(
        labels(&view, &state),
        vec![INTRODUCTION, "ChatGPT account connected", "Sign Out", "went wrong"]
    );
}

#[test]
fn panel_shows_the_page_of_a_sign_in() {
    let mut view = ConfigurationView::new();
    view.load_finished();
    let (mut state, sign_in) = started();
    view.sign_in_started();
    let items = view.render(&state);
    assert_eq!(items.len(), 4);
    assert!(matches!(&items[2], PanelItem::CopyUrlButton(url) if *url == sign_in.authorization_url));
    assert_eq!(items[2].label(), "Copy URL");
    assert!(matches!(items[3], PanelItem::CancelButton));
    assert_eq!(items[3].label(), "Cancel");
    assert!(matches!(&items[1], PanelItem::Page(url) if *url == sign_in.authorization_url));
    assert_eq!(
        items[1].label(),
        "If your browser didn't open, copy this URL. For SSH sessions, run \
         `ssh -L 1455:localhost:1455 host` first."
    );
    view.sign_in_finished(&mut state, &Err(CodexError::CallbackTimeout));
    assert!(!view.signing_in);
    assert_eq!(
        labels(&view, &state),
        vec![
            INTRODUCTION,
            "Sign in with ChatGPT",
            LINK,
            "Timed out waiting for OpenAI Codex sign-in"
        ]
    );
}

#[test]
fn panel_returns_to_the_start_after_a_cancelled_sign_in() {
    let mut view = ConfigurationView::new();
    view.load_finished();
    let (mut state, _) = started();
    view.sign_in_started();
    view.sign_in_finished(&mut state, &Err(CodexError::Cancelled));
    assert_eq!(labels(&view, &state), vec![INTRODUCTION, "Sign in with ChatGPT", LINK]);
}

#[test]
fn panel_offers_no_second_sign_in() {
    let mut view = ConfigurationView::new();
    view.load_finished();
    view.sign_in_started();
    let mut state = State::new();
    assert_eq!(labels(&view, &state), vec![INTRODUCTION]);
    view.sign_in_finished(&mut state, &Ok(()));
    assert_eq!(labels(&view, &state), vec![INTRODUCTION, "Sign in with ChatGPT", LINK]);
    assert!(state.error.is_none());
}
