use openai_codex::callback::{
    answer_request, callback_from_pairs, callback_from_query, wait_for_callback, CallbackAction,
    CallbackEvent, OAuthCallback, BIND_RETRY_MILLIS, CALLBACK_ADDRESS, CALLBACK_LIMIT_NANOS,
    CANCEL_URL, COMPLETE_PAGE, FAILED_PAGE, MAX_BIND_ATTEMPTS, POLL_MILLIS,
};
use openai_codex::credentials::OpenAiCodexCredentials;
use openai_codex::error::CodexError;
use openai_codex::http::HttpRequest;
use openai_codex::oauth::{
    build_authorization_url, challenge_for, exchange_code_for_credentials, generate_pkce_challenge,
    random_url_safe, refresh_credentials, token_url, CLIENT_ID, REDIRECT_URI, SCOPE,
};

fn pairs(list: &[(&str, &str)]) -> Vec<(String, String)> {
    list.iter().map(|(name, value)| (name.to_string(), value.to_string())).collect()
}

fn outcome_of(action: CallbackAction) -> Result<OAuthCallback, CodexError> {
    match action {
        CallbackAction::AnswerAndEnd(_, outcome) => outcome,
        CallbackAction::End(error) => Err(error),
        _ => panic!("the wait goes on"),
    }
}

fn message_of(outcome: Result<OAuthCallback, CodexError>) -> String {
    match outcome {
        Ok(_) => panic!("a callback"),
        Err(error) => error.message(),
    }
}

fn request(url: &str) -> CallbackAction {
    wait_for_callback(&CallbackEvent::Request(url.to_string()))
}

fn is_symbol(c: char) -> bool {
    c.is_ascii_alphanumeric() || c == '-' || c == '_'
}

#[test]
fn constants_are_those_of_the_registered_client() {
    assert_eq!(CLIENT_ID, "app_EMoamEEZ73f0CkXaXp7hrann");
    assert_eq!(REDIRECT_URI, "http://localhost:1455/auth/callback");
    assert_eq!(SCOPE, "openid profile email offline_access");
    assert_eq!(CALLBACK_ADDRESS, "127.0.0.1:1455");
    assert_eq!(POLL_MILLIS, 200);
    assert_eq!(MAX_BIND_ATTEMPTS, 10);
    assert_eq!(BIND_RETRY_MILLIS, 200);
    assert_eq!(CANCEL_URL, "http://127.0.0.1:1455/cancel");
    assert_eq!(CALLBACK_LIMIT_NANOS, 300 * 1_000_000_000);
}

#[test]
fn challenge_is_the_digest_of_the_verifier() {
    let pkce = challenge_for("dBjftJeZ4CVP-mB92K27uhbUJU1p1r_wW1gFWFOEjXk".to_string());
    assert_eq!(pkce.verifier, "dBjftJeZ4CVP-mB92K27uhbUJU1p1r_wW1gFWFOEjXk");
    assert_eq!(pkce.challenge, "E9Melhoa2OwvFrEMTJguCHaoeK1t8URWbuGJSstw-cM");
    let empty = challenge_for(String::new());
    assert_eq!(empty.challenge, "47DEQpj8HBSa-_TImW-5JCeuQeRkm5NMpJWZG3hSuFU");
}

#[test]
fn new_secrets_are_url_safe_and_differ() {
    let first = generate_pkce_challenge();
    let second = generate_pkce_challenge();
    assert_ne!(first.verifier, second.verifier);
    assert_eq!(first.verifier.len(), 43);
    assert_eq!(first.challenge.len(), 43);
    assert!(first.verifier.chars().all(is_symbol));
    assert!(first.challenge.chars().all(is_symbol));
    assert_eq!(challenge_for(first.verifier.clone()).challenge, first.challenge);
}

#[test]
fn random_text_has_the_length_of_its_bytes() {
    assert_eq!(random_url_safe(0), "");
    assert_eq!(random_url_safe(1).len(), 2);
    assert_eq!(random_url_safe(2).len(), 3);
    assert_eq!(random_url_safe(3).len(), 4);
    assert_eq!(random_url_safe(32).len(), 43);
    assert_ne!(random_url_safe(32), random_url_safe(32));
    assert_ne!(random_url_safe(32), "A".repeat(43));
}

#[test]
fn authorization_url_holds_every_parameter() {
    assert_eq!(
        build_authorization_url("https://auth.openai.com/", "CHALLENGE", "STATE"),
        "https://auth.openai.com/oauth/authorize?response_type=code\
         &client_id=app_EMoamEEZ73f0CkXaXp7hrann\
         &redirect_uri=http%3A%2F%2Flocalhost%3A1455%2Fauth%2Fcallback\
         &scope=openid%20profile%20email%20offline_access\
         &code_challenge=CHALLENGE&code_challenge_method=S256&state=STATE\
         &id_token_add_organizations=true&codex_cli_simplified_flow=true&originator=zed"
    );
}

#[test]
fn trailing_slashes_of_addresses_make_no_difference() {
    assert_eq!(token_url("https://auth.example"), "https://auth.example/oauth/token");
    assert_eq!(token_url("https://auth.example///"), "https://auth.example/oauth/token");
    assert_eq!(token_url(""), "/oauth/token");
    assert_eq!(token_url("//"), "/oauth/token");
    assert_eq!(
        build_authorization_url("https://a", "c", "s"),
        build_authorization_url("https://a//", "c", "s")
    );
}

fn assert_token_post(request: &HttpRequest, uri: &str, body: &str) {
    assert_eq!(request.method, "POST");
    assert_eq!(request.uri, uri);
    assert_eq!(
        request.headers,
        vec![("Content-Type", "application/x-www-form-urlencoded".to_string())]
    );
    assert_eq!(request.body, body);
}

#[test]
fn code_exchange_posts_a_form() {
    let request = exchange_code_for_credentials("https://x/oauth/token", "a b&c=é", "ver_-.~*")
        .expect("a request");
    assert_token_post(
        &request,
        "https://x/oauth/token",
        "grant_type=authorization_code&client_id=app_EMoamEEZ73f0CkXaXp7hrann\
         &code=a+b%26c%3D%C3%A9&code_verifier=ver_-.%7E*\
         &redirect_uri=http%3A%2F%2Flocalhost%3A1455%2Fauth%2Fcallback",
    );
}

#[test]
fn refresh_posts_a_form() {
    let credentials = OpenAiCodexCredentials {
        access_token: "a".to_string(),
        refresh_token: "r/+ t".to_string(),
        expires_at_ms: 0,
        account_id: None,
    };
    let request = refresh_credentials("https://x/", &credentials).expect("a request");
    assert_token_post(
        &request,
        "https://x/oauth/token",
        "grant_type=refresh_token&client_id=app_EMoamEEZ73f0CkXaXp7hrann&refresh_token=r%2F%2B+t",
    );
}

#[test]
fn callback_brings_code_and_state() {
    let callback = callback_from_query("code=abc&state=xyz").expect("a callback");
    assert_eq!(callback.code, "abc");
    assert_eq!(callback.state, "xyz");
    let callback = callback_from_query("scope=x&state=xyz&code=abc&extra").expect("a callback");
    assert_eq!(callback.code, "abc");
    assert_eq!(callback.state, "xyz");
}

#[test]
fn callback_values_are_decoded() {
    let callback = callback_from_query("code=a%20b+c%2B%C3%A9&state=%2f%2F=").expect("a callback");
    assert_eq!(callback.code, "a b c+é");
    assert_eq!(callback.state, "//=");
    let callback = callback_from_query("code=100%&state=%zz").expect("a callback");
    assert_eq!(callback.code, "100%");
    assert_eq!(callback.state, "%zz");
}

#[test]
fn of_two_values_with_one_name_the_later_counts() {
    let callback = callback_from_query("code=1&state=a&code=2&state=b").expect("a callback");
    assert_eq!(callback.code, "2");
    assert_eq!(callback.state, "b");
}

#[test]
fn empty_values_are_values() {
    let callback = callback_from_query("code=&state").expect("a callback");
    assert_eq!(callback.code, "");
    assert_eq!(callback.state, "");
}

#[test]
fn reported_error_counts_first() {
    let message = message_of(callback_from_query("code=abc&state=xyz&error=access_denied"));
    assert_eq!(message, "OpenAI OAuth error: access_denied");
    assert!(matches!(callback_from_query("error="), Err(CodexError::OAuth(reason)) if reason.is_empty()));
}

#[test]
fn missing_code_counts_before_missing_state() {
    assert_eq!(message_of(callback_from_query("")), "OAuth callback was missing code");
    assert_eq!(message_of(callback_from_query("state=x")), "OAuth callback was missing code");
    assert_eq!(message_of(callback_from_query("code=x")), "OAuth callback was missing state");
    assert_eq!(message_of(callback_from_query("&&=&")), "OAuth callback was missing code");
}

#[test]
fn pairs_are_read_as_queries_are() {
    let callback =
        callback_from_pairs(&pairs(&[("state", "s"), ("code", "c1"), ("code", "c2")])).expect("a callback");
    assert_eq!(callback.code, "c2");
    assert_eq!(callback.state, "s");
    assert!(matches!(callback_from_pairs(&pairs(&[])), Err(CodexError::MissingCode)));
    assert!(matches!(
        callback_from_pairs(&pairs(&[("code", "c")])),
        Err(CodexError::MissingState)
    ));
    assert!(matches!(
        callback_from_pairs(&pairs(&[("Code", "c"), ("error", "e")])),
        Err(CodexError::OAuth(_))
    ));
}

#[test]
fn server_starts_by_looking_at_the_clock() {
    assert!(matches!(wait_for_callback(&CallbackEvent::Ready), CallbackAction::CheckClock));
    assert!(matches!(wait_for_callback(&CallbackEvent::Idle), CallbackAction::CheckClock));
}

#[test]
fn server_waits_five_minutes() {
    let limit: u128 = 300_000_000_000;
    assert!(matches!(wait_for_callback(&CallbackEvent::Elapsed(0)), CallbackAction::Poll));
    assert!(matches!(wait_for_callback(&CallbackEvent::Elapsed(limit)), CallbackAction::Poll));
    match wait_for_callback(&CallbackEvent::Elapsed(limit + 1)) {
        CallbackAction::End(error) => {
            assert_eq!(error.message(), "Timed out waiting for OpenAI Codex sign-in");
        }
        _ => panic!("the wait goes on"),
    }
}

fn bind_failed(in_use: bool, attempt: u32) -> CallbackAction {
    wait_for_callback(&CallbackEvent::BindFailed {
        in_use,
        attempt,
        reason: "Address in use".to_string(),
    })
}

const PORT_IN_USE: &str = "Sign in already in progress, or port 1455 is in use by another app. \
                           Quit other ChatGPT/Codex login flows and try again. (Address in use)";

#[test]
fn server_starts_at_once() {
    assert!(matches!(
        wait_for_callback(&CallbackEvent::Start),
        CallbackAction::Bind { delay_millis: 0, attempt: 1 }
    ));
}

#[test]
fn a_held_port_is_tried_again() {
    assert!(matches!(
        bind_failed(true, 1),
        CallbackAction::SendCancel("http://127.0.0.1:1455/cancel")
    ));
    assert!(matches!(
        wait_for_callback(&CallbackEvent::CancelSent),
        CallbackAction::Bind { delay_millis: 200, attempt: 2 }
    ));
    for failed in 2..10 {
        assert!(matches!(
            bind_failed(true, failed),
            CallbackAction::Bind { delay_millis: 200, attempt } if attempt == failed + 1
        ));
    }
}

#[test]
fn port_in_use_is_told_after_the_last_attempt() {
    for attempt in [10, 11, u32::MAX] {
        match bind_failed(true, attempt) {
            CallbackAction::End(error) => assert_eq!(error.message(), PORT_IN_USE),
            _ => panic!("the wait goes on"),
        }
    }
}

#[test]
fn other_failures_to_start_are_told_at_once() {
    for attempt in [1, 5] {
        match bind_failed(false, attempt) {
            CallbackAction::End(error) => assert_eq!(error.message(), PORT_IN_USE),
            _ => panic!("the wait goes on"),
        }
    }
}

/// Runs the server against a port that is free from the given attempt on.
fn run_server(free_from: u32, url: &str) -> (u32, u32, Result<OAuthCallback, CodexError>) {
    let (mut binds, mut cancels) = (0, 0);
    let mut event = CallbackEvent::Start;
    loop {
        event = match wait_for_callback(&event) {
            CallbackAction::Bind { attempt, .. } => {
                binds += 1;
                if attempt < free_from {
                    CallbackEvent::BindFailed { in_use: true, attempt, reason: String::new() }
                } else {
                    CallbackEvent::Ready
                }
            }
            CallbackAction::SendCancel(_) => {
                cancels += 1;
                CallbackEvent::CancelSent
            }
            CallbackAction::CheckClock => CallbackEvent::Elapsed(1),
            CallbackAction::Poll => CallbackEvent::Request(url.to_string()),
            CallbackAction::Answer(_) => CallbackEvent::Ready,
            CallbackAction::AnswerAndEnd(_, outcome) => return (binds, cancels, outcome),
            CallbackAction::End(error) => return (binds, cancels, Err(error)),
        };
    }
}

#[test]
fn a_port_that_becomes_free_is_used() {
    let url = "/auth/callback?code=c&state=s";
    for free_from in 1..=10 {
        let (binds, cancels, outcome) = run_server(free_from, url);
        assert_eq!(binds, free_from);
        assert_eq!(cancels, u32::from(free_from > 1));
        let callback = outcome.expect("a callback");
        assert_eq!(callback.code, "c");
        assert_eq!(callback.state, "s");
    }
    let (binds, cancels, outcome) = run_server(11, url);
    assert_eq!((binds, cancels), (10, 1));
    assert!(matches!(outcome, Err(CodexError::CallbackPort(_))));
}

#[test]
fn an_abandoned_sign_in_ends() {
    assert!(matches!(
        wait_for_callback(&CallbackEvent::Abandoned),
        CallbackAction::End(CodexError::Cancelled)
    ));
}

#[test]
fn failed_wait_ends_in_its_own_words() {
    match wait_for_callback(&CallbackEvent::Failed("broken pipe".to_string())) {
        CallbackAction::End(error) => {
            assert!(matches!(error, CodexError::Service(_)));
            assert_eq!(error.message(), "broken pipe");
        }
        _ => panic!("the wait goes on"),
    }
}

#[test]
fn sign_in_can_be_cancelled() {
    for url in ["/cancel", "/cancelled?x=1", "/cancel/auth/callback?code=a&state=b"] {
        match request(url) {
            CallbackAction::AnswerAndEnd(reply, outcome) => {
                assert_eq!(reply.status, 200);
                assert_eq!(reply.body, "Cancelled");
                assert_eq!(message_of(outcome), "OpenAI Codex sign-in cancelled");
            }
            _ => panic!("not cancelled"),
        }
    }
}

#[test]
fn stray_requests_are_not_found() {
    for url in ["/", "", "/favicon.ico", "/auth", "/Auth/callback?code=a&state=b", "auth/callback"] {
        match request(url) {
            CallbackAction::Answer(reply) => {
                assert_eq!(reply.status, 404);
                assert_eq!(reply.body, "Not found");
            }
            _ => panic!("found"),
        }
    }
}

#[test]
fn callback_ends_the_wait() {
    match request("/auth/callback?code=abc&state=x%3Fy") {
        CallbackAction::AnswerAndEnd(reply, outcome) => {
            assert_eq!(reply.status, 200);
            assert_eq!(reply.body, COMPLETE_PAGE);
            assert_eq!(
                COMPLETE_PAGE,
                "<html><body><h1>OpenAI Codex sign-in complete</h1><p>You can close this tab.</p>\
                 </body></html>"
            );
            let callback = outcome.expect("a callback");
            assert_eq!(callback.code, "abc");
            assert_eq!(callback.state, "x?y");
        }
        _ => panic!("the wait goes on"),
    }
}

#[test]
fn the_query_begins_at_the_first_question_mark() {
    let callback = outcome_of(answer_request("/auth/callback?code=a?b&state=c")).expect("a callback");
    assert_eq!(callback.code, "a?b");
    let callback = outcome_of(answer_request("/auth/callbackx/y?code=a&state=c")).expect("a callback");
    assert_eq!(callback.code, "a");
}

#[test]
fn echoed_callbacks_are_read_whatever_they_hold() {
    for (code, state) in [("", ""), ("a&b=c", "é ü+%"), ("?/#", "\u{1F600}\n"), ("code", "error")] {
        let form = serde_urlencoded::to_string(pairs(&[("code", code), ("state", state)])).expect("a form");
        let callback = outcome_of(request(&format!("/auth/callback?{form}"))).expect("a callback");
        assert_eq!(callback.code, code);
        assert_eq!(callback.state, state);
    }
}

#[test]
fn callback_failures_end_the_wait_and_are_shown() {
    for (url, message) in [
        ("/auth/callback", "OAuth callback was missing code"),
        ("/auth/callback?state=s", "OAuth callback was missing code"),
        ("/auth/callback?code=c", "OAuth callback was missing state"),
        ("/auth/callback?error=denied&code=c&state=s", "OpenAI OAuth error: denied"),
    ] {
        match request(url) {
            CallbackAction::AnswerAndEnd(reply, outcome) => {
                assert_eq!(reply.status, 400);
                assert_eq!(reply.body, FAILED_PAGE);
                assert_eq!(
                    FAILED_PAGE,
                    "<html><body><h1>OpenAI Codex sign-in failed</h1><p>You can close this tab and \
                     try again.</p></body></html>"
                );
                assert_eq!(message_of(outcome), message);
            }
            _ => panic!("no answer"),
        }
    }
}
