use openai_codex::clock::{millis_from, now_ms};
use openai_codex::credentials::OpenAiCodexCredentials;
use openai_codex::error::CodexError;
use openai_codex::http::{
    codex_failure, codex_reply, codex_request, refresh_reply, safe_excerpt, succeeded, token_reply,
    token_request, CodexReply,
};
use openai_codex::provider::{
    authorize, codex_models, completion_error, CompletionError, Dispatch, LanguageModelToolChoice,
    OpenAiCodexLanguageModelProvider, OpenAiCodexSettings,
};
use openai_codex::request::{
    into_codex_response, LanguageModelRequest, Message, ReasoningEffort, Role,
};
use openai_codex::state::{State, StoredCredentials};
use openai_codex::text::{
    char_is_white_space, contains_lowercased, contains_text, same_text, second_of, split_after, split_before,
    starts_with, take_chars, trim, trim_end_slashes,
};

fn state_with(account_id: Option<&str>) -> State {
    state_until(account_id, u64::MAX)
}

fn state_until(account_id: Option<&str>, expires_at_ms: u64) -> State {
    let mut state = State::new();
    let credentials = OpenAiCodexCredentials {
        access_token: "token".to_string(),
        refresh_token: "refresh".to_string(),
        expires_at_ms,
        account_id: account_id.map(str::to_string),
    };
    assert!(state.credentials_read(StoredCredentials::Found(credentials)).is_ok());
    state
}

#[test]
fn requests_go_to_the_responses_endpoint() {
    let request = codex_request("https://x/codex//", " token\n", "acct", "{}".to_string())
        .expect("a request");
    assert_eq!(request.method, "POST");
    assert_eq!(request.uri, "https://x/codex/responses");
    assert_eq!(request.body, "{}");
    assert_eq!(
        request.headers,
        vec![
            ("Authorization", "Bearer token".to_string()),
            ("ChatGPT-Account-ID", "acct".to_string()),
            ("Accept", "text/event-stream".to_string()),
            ("Content-Type", "application/json".to_string()),
            ("originator", "zed".to_string()),
        ]
    );
    for api_url in ["https://x/codex", "https://x/codex/", "https://x/codex////"] {
        let request = codex_request(api_url, "t", "a", String::new()).expect("a request");
        assert_eq!(request.uri, "https://x/codex/responses");
    }
}

#[test]
fn values_that_cannot_stand_in_a_header_are_refused() {
    for bad in ["a\r\nX-Evil: 1", "a\nb", "a\rb", "a\0b", "a\u{7f}b", "\u{1f}b\u{1}c"] {
        for (token, account) in [(bad, "acct"), ("token", bad)] {
            match codex_request("https://x", token, account, String::new()) {
                Err(error) => {
                    assert!(matches!(error, CodexError::InvalidHeader));
                    assert_eq!(error.message(), "failed to parse header value");
                }
                Ok(_) => panic!("a request"),
            }
        }
    }
    assert!(codex_request("https://x", "a", "a\n", String::new()).is_err());
    for good in ["", "a\tb", "a b", "é~"] {
        assert!(codex_request("https://x", good, good, String::new()).is_ok());
    }
}

#[test]
fn forms_go_to_the_token_endpoint() {
    let request = token_request("https://x/oauth/token", "a=b".to_string());
    assert_eq!(request.method, "POST");
    assert_eq!(request.uri, "https://x/oauth/token");
    assert_eq!(request.body, "a=b");
    assert_eq!(
        request.headers,
        vec![("Content-Type", "application/x-www-form-urlencoded".to_string())]
    );
}

#[test]
fn successes_are_the_two_hundreds() {
    assert!(!succeeded(199));
    assert!(succeeded(200));
    assert!(succeeded(299));
    assert!(!succeeded(300));
    assert!(!succeeded(0));
}

#[test]
fn token_replies_are_told_apart() {
    assert!(matches!(
        token_reply(200, "200 OK", "{}".to_string()),
        Ok(body) if body == "{}"
    ));
    match token_reply(400, "400 Bad Request", "x".repeat(600)) {
        Err(error) => {
            assert!(matches!(error, CodexError::TokenEndpoint { .. }));
            assert_eq!(
                error.message(),
                format!("OpenAI OAuth token endpoint returned 400 Bad Request: {}", "x".repeat(512))
            );
        }
        Ok(_) => panic!("a success"),
    }
}

#[test]
fn refused_refresh_tokens_end_the_sign_in() {
    for status in [400, 401] {
        match refresh_reply(status, "x", "{\"error\":\"invalid_grant\"}".to_string()) {
            Err(error) => {
                assert!(matches!(error, CodexError::SignInExpired));
                assert_eq!(error.message(), "Sign in expired. Please sign in again.");
            }
            Ok(_) => panic!("a success"),
        }
    }
    assert!(matches!(
        refresh_reply(403, "x", "invalid_grant".to_string()),
        Err(CodexError::TokenEndpoint { .. })
    ));
    assert!(matches!(
        refresh_reply(400, "x", "{\"error\":\"invalid_request\"}".to_string()),
        Err(CodexError::TokenEndpoint { .. })
    ));
    assert!(matches!(
        refresh_reply(200, "x", "invalid_grant".to_string()),
        Ok(body) if body == "invalid_grant"
    ));
    assert!(matches!(
        token_reply(400, "x", "invalid_grant".to_string()),
        Err(CodexError::TokenEndpoint { .. })
    ));
}

#[test]
fn refused_access_tokens_are_tried_once_more() {
    assert!(matches!(codex_reply(200, "200 OK", "", false), CodexReply::Stream));
    assert!(matches!(codex_reply(204, "204", "x", true), CodexReply::Stream));
    assert!(matches!(
        codex_reply(401, "401 Unauthorized", "expired", false),
        CodexReply::RefreshAndRetry
    ));
    match codex_reply(401, "401 Unauthorized", "expired", true) {
        CodexReply::Failed(error) => assert_eq!(
            error.message(),
            "OpenAI Codex request failed with status 401 Unauthorized: expired"
        ),
        _ => panic!("a third try"),
    }
    assert!(matches!(
        codex_reply(403, "403 Forbidden", "Cloudflare", false),
        CodexReply::Failed(CodexError::Cloudflare)
    ));
    assert!(matches!(
        codex_reply(500, "500", "", false),
        CodexReply::Failed(CodexError::RequestFailed { .. })
    ));
}

#[test]
fn excerpts_are_cut_by_characters() {
    assert_eq!(safe_excerpt(""), "");
    assert_eq!(safe_excerpt("short"), "short");
    assert_eq!(safe_excerpt(&"é".repeat(512)), "é".repeat(512));
    assert_eq!(safe_excerpt(&"é".repeat(513)), "é".repeat(512));
    assert_eq!(take_chars("abc", 0), "");
    assert_eq!(take_chars("a😀c", 2), "a😀");
}

#[test]
fn cloudflare_refusals_are_told_apart() {
    for body in ["cloudflare", "<h1>CloudFlare</h1>", "xxCLOUDFLARE"] {
        let error = codex_failure(403, "403 Forbidden", body);
        assert!(matches!(error, CodexError::Cloudflare));
        assert_eq!(
            error.message(),
            "ChatGPT backend rejected the request (Cloudflare). This may need cookie support — \
             please report."
        );
    }
    assert!(matches!(
        codex_failure(403, "403 Forbidden", "cloud flare"),
        CodexError::RequestFailed { .. }
    ));
    assert!(matches!(
        codex_failure(503, "503 Service Unavailable", "cloudflare"),
        CodexError::RequestFailed { .. }
    ));
}

#[test]
fn failures_tell_status_and_excerpt() {
    let error = codex_failure(500, "500 Internal Server Error", &"y".repeat(1000));
    assert_eq!(
        error.message(),
        format!(
            "OpenAI Codex request failed with status 500 Internal Server Error: {}",
            "y".repeat(512)
        )
    );
}

#[test]
fn every_error_has_its_words() {
    let text = || "why".to_string();
    for (error, words) in [
        (CodexError::SignInRequired, "Sign in with ChatGPT to use OpenAI Codex"),
        (
            CodexError::AccountUnknown,
            "ChatGPT account ID could not be determined; please sign out and sign in again.",
        ),
        (
            CodexError::InvalidCredentials { line: 2, column: 10 },
            "invalid OpenAI Codex credentials: line 2 column 10",
        ),
        (
            CodexError::InvalidTokenResponse { line: 0, column: 0 },
            "invalid OpenAI OAuth token response: line 0 column 0",
        ),
        (CodexError::SignInExpired, "Sign in expired. Please sign in again."),
        (CodexError::InvalidHeader, "failed to parse header value"),
        (CodexError::Transport(text()), "why"),
        (CodexError::StateMismatch, "OAuth state did not match"),
        (CodexError::MissingRefreshToken, "OpenAI OAuth response did not include a refresh token"),
        (CodexError::CallbackTimeout, "Timed out waiting for OpenAI Codex sign-in"),
        (CodexError::Cancelled, "OpenAI Codex sign-in cancelled"),
        (CodexError::OAuth(text()), "OpenAI OAuth error: why"),
        (CodexError::MissingCode, "OAuth callback was missing code"),
        (CodexError::MissingState, "OAuth callback was missing state"),
        (CodexError::Service(text()), "why"),
    ] {
        assert_eq!(error.message(), words);
        assert_eq!(error.clone().message(), words);
    }
}

fn message(role: Role, text: &str) -> Message<u8> {
    Message { role, text: text.to_string(), content: text.len() as u8 }
}

fn conversation(messages: Vec<Message<u8>>, tools: Vec<&str>) -> LanguageModelRequest<u8, &str, u8> {
    LanguageModelRequest {
        messages,
        tools,
        tool_choice: Some(LanguageModelToolChoice::Any),
        thread_id: Some("thread".to_string()),
        rest: 7,
    }
}

fn texts(messages: &[Message<u8>]) -> Vec<&str> {
    messages.iter().map(|message| message.text.as_str()).collect()
}

#[test]
fn requests_fit_the_backend() {
    let request = conversation(vec![message(Role::User, "hi")], vec!["tool"]);
    let request = into_codex_response(request, "gpt-5.4", false);
    assert_eq!(request.model, "gpt-5.4");
    assert_eq!(request.instructions.as_deref(), Some("You are an AI coding assistant."));
    assert_eq!(texts(&request.input), vec!["hi"]);
    assert_eq!(request.input[0].content, 2);
    assert_eq!(request.tools, vec!["tool"]);
    assert_eq!(request.tool_choice, Some(LanguageModelToolChoice::Any));
    assert_eq!(request.parallel_tool_calls, Some(true));
    assert_eq!(request.reasoning_effort, None);
    assert!(request.stream);
    assert_eq!(request.store, Some(false));
    assert_eq!(request.max_output_tokens, None);
    assert_eq!(request.prompt_cache_key.as_deref(), Some("thread"));
    assert_eq!(request.rest, 7);
}

#[test]
fn system_messages_become_the_instructions() {
    let request = conversation(
        vec![message(Role::System, "Be terse."), message(Role::User, "hi")],
        vec![],
    );
    let request = into_codex_response(request, "gpt-5.2", false);
    assert_eq!(request.instructions.as_deref(), Some("Be terse."));
    assert_eq!(texts(&request.input), vec!["hi"]);
    assert!(matches!(request.input[0].role, Role::User));
    assert_eq!(request.parallel_tool_calls, None);
}

#[test]
fn several_system_messages_are_joined() {
    let request = conversation(
        vec![
            message(Role::System, "one"),
            message(Role::User, "a"),
            message(Role::System, ""),
            message(Role::Assistant, "b"),
            message(Role::System, "two"),
            message(Role::User, "c"),
        ],
        vec![],
    );
    let request = into_codex_response(request, "m", false);
    assert_eq!(request.instructions.as_deref(), Some("one\n\ntwo"));
    assert_eq!(texts(&request.input), vec!["a", "b", "c"]);
}

#[test]
fn instructions_are_never_empty() {
    for messages in [vec![], vec![message(Role::System, "")], vec![message(Role::User, "x")]] {
        let request = into_codex_response(conversation(messages, vec![]), "m", false);
        assert_eq!(request.instructions.as_deref(), Some("You are an AI coding assistant."));
        assert!(request.input.iter().all(|message| message.role != Role::System));
    }
}

#[test]
fn thinking_models_think_with_medium_effort() {
    let request = into_codex_response(conversation(vec![], vec![]), "m", true);
    assert_eq!(request.reasoning_effort, Some(ReasoningEffort::Medium));
}

#[test]
fn models_are_listed() {
    let models: Vec<(&str, &str, u64, u64, bool)> = codex_models()
        .iter()
        .map(|model| {
            (
                model.id,
                model.display_name,
                model.max_tokens,
                model.max_output,
                model.supports_thinking,
            )
        })
        .collect();
    assert_eq!(
        models,
        vec![
            ("gpt-5-codex", "GPT-5 Codex", 272_000, 128_000, false),
            ("gpt-5.2", "GPT-5.2", 400_000, 128_000, false),
            ("gpt-5.2-codex", "GPT-5.2 Codex", 400_000, 128_000, false),
            ("gpt-5.3-codex", "GPT-5.3 Codex", 400_000, 128_000, true),
            ("gpt-5.4", "GPT-5.4", 1_050_000, 128_000, false),
        ]
    );
}

#[test]
fn model_names_differ() {
    let models = codex_models();
    for i in 0..models.len() {
        for j in 0..i {
            assert_ne!(models[i].id, models[j].id);
            assert_ne!(models[i].display_name, models[j].display_name);
        }
    }
}

#[test]
fn provider_offers_its_models() {
    let provider = OpenAiCodexLanguageModelProvider::new();
    assert_eq!(provider.id(), "openai_codex");
    assert_eq!(provider.name(), "OpenAI Codex");
    assert_eq!(provider.default_model().id(), "gpt-5.3-codex");
    assert_eq!(provider.default_fast_model().id(), "gpt-5-codex");
    let models = provider.provided_models();
    assert_eq!(models.len(), 5);
    for (offer, model) in models.iter().zip(codex_models()) {
        assert_eq!(offer.id(), model.id);
        assert_eq!(offer.name(), model.display_name);
        assert_eq!(offer.request_limit, 4);
        assert_eq!(offer.telemetry_id(), format!("openai_codex/{}", model.id));
        assert_eq!(offer.max_token_count(), model.max_tokens);
        assert_eq!(offer.max_output_tokens(), Some(128_000));
        assert_eq!(offer.supports_thinking(), model.supports_thinking);
        assert_eq!(offer.provider_id(), "openai_codex");
        assert_eq!(offer.provider_name(), "OpenAI Codex");
        assert!(offer.supports_tools());
        assert!(offer.supports_images());
        assert!(offer.supports_streaming_tools());
        assert!(offer.supports_split_token_display());
        assert!(offer.supports_tool_choice(LanguageModelToolChoice::Auto));
        assert!(offer.supports_tool_choice(LanguageModelToolChoice::Any));
        assert!(offer.supports_tool_choice(LanguageModelToolChoice::Never));
        let request = offer.stream_completion(conversation(vec![], vec![]));
        assert_eq!(request.model, model.id);
        assert_eq!(request.reasoning_effort.is_some(), model.supports_thinking);
    }
}

#[test]
fn provider_keeps_the_state() {
    let mut provider = OpenAiCodexLanguageModelProvider::new();
    assert!(!provider.is_authenticated());
    assert!(provider.authenticate().is_some());
    provider.state = state_with(Some("acct"));
    assert!(provider.is_authenticated());
    assert!(provider.authenticate().is_none());
    let delete = provider.reset_credentials();
    assert_eq!(delete.key, "https://chatgpt.com/backend-api/codex/oauth");
    assert!(!provider.is_authenticated());
}

fn assert_sign_in_error(error: CompletionError, words: &str) {
    match error {
        CompletionError::Authentication { provider, message } => {
            assert_eq!(provider, "OpenAI Codex");
            assert_eq!(message, words);
        }
        CompletionError::Other(_) => panic!("another error"),
    }
}

const SIGN_IN: &str = "Sign in with ChatGPT to use OpenAI Codex";

const NO_ACCOUNT: &str =
    "ChatGPT account ID could not be determined; please sign out and sign in again.";

#[test]
fn requests_are_authorized_by_the_credentials() {
    let model = OpenAiCodexLanguageModelProvider::new().default_model();
    match model.stream_response(&mut state_with(Some("acct")), "https://a", 5) {
        Ok(Dispatch::Send(authorization)) => {
            assert_eq!(authorization.access_token, "token");
            assert_eq!(authorization.account_id, "acct");
        }
        _ => panic!("refused"),
    }
    match model.stream_response(&mut State::new(), "https://a", 5) {
        Err(error) => assert_sign_in_error(error, SIGN_IN),
        Ok(_) => panic!("authorized"),
    }
    match model.stream_response(&mut state_with(None), "https://a", 5) {
        Err(error) => assert_sign_in_error(error, NO_ACCOUNT),
        Ok(_) => panic!("authorized"),
    }
}

#[test]
fn stale_tokens_are_refreshed_before_a_request() {
    let model = OpenAiCodexLanguageModelProvider::new().default_model();
    for account in [Some("acct"), None] {
        let mut state = state_until(account, 70_000);
        match model.stream_response(&mut state, "https://a/", 10_001) {
            Ok(Dispatch::RefreshFirst(refresh)) => {
                assert_eq!(refresh.request.uri, "https://a/oauth/token");
                assert!(refresh.request.body.ends_with("&refresh_token=refresh"));
            }
            _ => panic!("no refresh"),
        }
        assert!(matches!(
            model.stream_response(&mut state, "https://a/", 10_001),
            Ok(Dispatch::AwaitRefresh)
        ));
    }
    assert!(matches!(
        model.stream_response(&mut state_until(Some("acct"), 70_000), "https://a", 10_000),
        Ok(Dispatch::Send(_))
    ));
}

#[test]
fn requests_after_a_refresh_are_authorized_whatever_the_time() {
    match authorize(&state_until(Some("acct"), 0)) {
        Ok(authorization) => assert_eq!(authorization.access_token, "token"),
        Err(_) => panic!("refused"),
    }
    match authorize(&State::new()) {
        Err(error) => assert_sign_in_error(error, SIGN_IN),
        Ok(_) => panic!("authorized"),
    }
    match authorize(&state_with(None)) {
        Err(error) => assert_sign_in_error(error, NO_ACCOUNT),
        Ok(_) => panic!("authorized"),
    }
}

#[test]
fn errors_that_a_sign_in_mends_are_told_as_such() {
    assert_sign_in_error(
        completion_error(CodexError::SignInExpired),
        "Sign in expired. Please sign in again.",
    );
    assert_sign_in_error(completion_error(CodexError::SignInRequired), SIGN_IN);
    assert_sign_in_error(completion_error(CodexError::AccountUnknown), NO_ACCOUNT);
    assert!(matches!(
        completion_error(CodexError::Cloudflare),
        CompletionError::Other(CodexError::Cloudflare)
    ));
}

#[test]
fn settings_replace_the_usual_addresses() {
    let usual = OpenAiCodexSettings::default();
    assert_eq!(
        OpenAiCodexLanguageModelProvider::api_url(&usual),
        "https://chatgpt.com/backend-api/codex"
    );
    assert_eq!(OpenAiCodexLanguageModelProvider::auth_url(&usual), "https://auth.openai.com");
    let other = OpenAiCodexSettings {
        api_url: "http://api".to_string(),
        auth_url: "http://auth".to_string(),
    };
    assert_eq!(OpenAiCodexLanguageModelProvider::api_url(&other), "http://api");
    assert_eq!(OpenAiCodexLanguageModelProvider::auth_url(&other), "http://auth");
    assert_eq!(other.clone(), other);
    assert_ne!(usual, other);
}

#[test]
fn the_clock_becomes_a_number() {
    assert_eq!(millis_from(None), 0);
    assert_eq!(millis_from(Some(0)), 0);
    assert_eq!(millis_from(Some(1_700_000_000_000)), 1_700_000_000_000);
    assert_eq!(millis_from(Some(u64::MAX as u128)), u64::MAX);
    assert_eq!(millis_from(Some(u64::MAX as u128 + 1)), 0);
    assert_eq!(millis_from(Some(u128::MAX)), u64::MAX);
}

#[test]
fn the_clock_shows_this_century() {
    let now = now_ms();
    assert!(now > 1_600_000_000_000);
    assert!(now < 4_102_444_800_000);
    assert!(now_ms() >= now);
}

#[test]
fn white_space_is_that_of_unicode() {
    for code in 0..=0x10ffffu32 {
        if let Some(c) = char::from_u32(code) {
            assert_eq!(char_is_white_space(c), c.is_whitespace());
        }
    }
}

#[test]
fn tokens_are_trimmed() {
    for text in ["", " ", "a", " a b ", "\t\u{a0}x\u{3000}\n", "é ", "\u{200b}x"] {
        assert_eq!(trim(text), text.trim());
        assert_eq!(trim(trim(text)), trim(text));
    }
}

#[test]
fn text_is_cut() {
    assert_eq!(trim_end_slashes("a/b//"), "a/b");
    assert_eq!(trim_end_slashes("///"), "");
    assert_eq!(trim_end_slashes("é/"), "é");
    assert_eq!(split_after("a?b?c", '?'), Some("b?c"));
    assert_eq!(split_after("abc", '?'), None);
    assert_eq!(split_before("a.b.c", '.'), "a");
    assert_eq!(split_before("abc", '.'), "abc");
    assert_eq!(second_of("é.ü.x", '.'), Some("ü"));
    assert_eq!(second_of("a.", '.'), Some(""));
    assert_eq!(second_of("a", '.'), None);
    assert_eq!(second_of("", '.'), None);
}

#[test]
fn text_is_compared() {
    assert!(starts_with("/cancel?x", "/cancel"));
    assert!(starts_with("x", ""));
    assert!(!starts_with("/canc", "/cancel"));
    assert!(!starts_with("é", "e"));
    assert!(same_text("é", "é"));
    assert!(!same_text("a", "b"));
    assert!(!same_text("a", "ab"));
}

#[test]
fn lowercased_text_is_searched() {
    assert!(contains_lowercased("xABCx", "abc"));
    assert!(contains_lowercased("anything", ""));
    assert!(contains_lowercased("", ""));
    assert!(!contains_lowercased("ab", "abc"));
    assert!(!contains_lowercased("xABCx", "ABC"));
    assert!(!contains_lowercased("É", "é"));
    assert!(contains_lowercased("aaab", "aab"));
    assert!(contains_text("{\"error\":\"invalid_grant\"}", "invalid_grant"));
    assert!(contains_text("aaab", "aab"));
    assert!(contains_text("", ""));
    assert!(!contains_text("INVALID_GRANT", "invalid_grant"));
    assert!(!contains_text("invalid", "invalid_grant"));
}
