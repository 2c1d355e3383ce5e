use base64::Engine;
use openai_codex::credentials::{
    account_id_from_claims, assemble_credentials, credentials_at, credentials_from_token_response,
    extract_account_id_from_jwt, OpenAiCodexCredentials, TokenResponse,
};
use openai_codex::error::CodexError;
use openai_codex::json::{parse_json, Json};
use openai_codex::oauth::challenge_for;

fn base64_of(bytes: &[u8]) -> String {
    base64::engine::general_purpose::URL_SAFE_NO_PAD.encode(bytes)
}

fn jwt(claims: &str) -> String {
    format!("{}.{}.signature", base64_of(b"{\"alg\":\"none\"}"), base64_of(claims.as_bytes()))
}

fn response(access_token: &str, refresh_token: Option<&str>) -> TokenResponse {
    TokenResponse {
        access_token: access_token.to_string(),
        refresh_token: refresh_token.map(str::to_string),
        expires_in: None,
        id_token: None,
    }
}

fn earlier() -> OpenAiCodexCredentials {
    OpenAiCodexCredentials {
        access_token: "old-access".to_string(),
        refresh_token: "old-refresh".to_string(),
        expires_at_ms: 5,
        account_id: Some("old-account".to_string()),
    }
}

fn account(claims: &str) -> Option<String> {
    extract_account_id_from_jwt(&jwt(claims))
}

#[test]
fn account_is_named_directly() {
    assert_eq!(account("{\"chatgpt_account_id\":\"acct_1\"}").as_deref(), Some("acct_1"));
}

#[test]
fn account_is_named_under_the_dotted_claim() {
    assert_eq!(
        account("{\"https://api.openai.com/auth.chatgpt_account_id\":\"acct_2\"}").as_deref(),
        Some("acct_2")
    );
}

#[test]
fn account_is_named_inside_the_auth_claim() {
    assert_eq!(
        account("{\"https://api.openai.com/auth\":{\"chatgpt_account_id\":\"acct_3\"}}").as_deref(),
        Some("acct_3")
    );
}

#[test]
fn account_is_the_first_organization() {
    assert_eq!(
        account("{\"organizations\":[{\"id\":\"org_1\"},{\"id\":\"org_2\"}]}").as_deref(),
        Some("org_1")
    );
}

#[test]
fn claims_count_in_their_order() {
    let direct = "\"chatgpt_account_id\":\"a\"";
    let dotted = "\"https://api.openai.com/auth.chatgpt_account_id\":\"b\"";
    let nested = "\"https://api.openai.com/auth\":{\"chatgpt_account_id\":\"c\"}";
    let organization = "\"organizations\":[{\"id\":\"d\"}]";
    let all = format!("{{{organization},{nested},{dotted},{direct}}}");
    assert_eq!(account(&all).as_deref(), Some("a"));
    let three = format!("{{{organization},{nested},{dotted}}}");
    assert_eq!(account(&three).as_deref(), Some("b"));
    let two = format!("{{{organization},{nested}}}");
    assert_eq!(account(&two).as_deref(), Some("c"));
    let one = format!("{{{organization}}}");
    assert_eq!(account(&one).as_deref(), Some("d"));
}

#[test]
fn claims_of_another_kind_are_passed_over() {
    let claims = "{\"chatgpt_account_id\":7,\"https://api.openai.com/auth\":[],\
                  \"organizations\":[{\"id\":\"org\"}]}";
    assert_eq!(account(claims).as_deref(), Some("org"));
    assert_eq!(account("{\"chatgpt_account_id\":null}"), None);
    assert_eq!(account("{\"organizations\":[]}"), None);
    assert_eq!(account("{\"organizations\":[\"org\"]}"), None);
    assert_eq!(account("{\"organizations\":[{\"id\":3}]}"), None);
    assert_eq!(account("{\"organizations\":{\"id\":\"org\"}}"), None);
    assert_eq!(account("{\"organizations\":[{},{\"id\":\"org\"}]}"), None);
    assert_eq!(account("{\"https://api.openai.com/auth\":{\"x\":\"y\"}}"), None);
}

#[test]
fn an_empty_account_is_an_account() {
    assert_eq!(account("{\"chatgpt_account_id\":\"\"}").as_deref(), Some(""));
}

#[test]
fn of_two_claims_with_one_name_the_later_counts() {
    let claims = "{\"chatgpt_account_id\":\"first\",\"chatgpt_account_id\":\"second\"}";
    assert_eq!(account(claims).as_deref(), Some("second"));
}

#[test]
fn tokens_that_name_no_account_are_no_error() {
    assert_eq!(extract_account_id_from_jwt(""), None);
    assert_eq!(extract_account_id_from_jwt("opaque"), None);
    assert_eq!(extract_account_id_from_jwt("a..c"), None);
    assert_eq!(extract_account_id_from_jwt("a.!!!.c"), None);
    assert_eq!(account("not json"), None);
    assert_eq!(account("{\"sub\":\"user\"}"), None);
    assert_eq!(account("[1,2]"), None);
    assert_eq!(account("\"chatgpt_account_id\""), None);
    assert_eq!(account("{} trailing"), None);
}

#[test]
fn padding_and_other_alphabets_are_refused() {
    let claims = b"{\"chatgpt_account_id\":\"acct>>>???\"}";
    let safe = base64_of(claims);
    assert!(safe.contains('-') || safe.contains('_'));
    assert_eq!(
        extract_account_id_from_jwt(&format!("h.{safe}.s")).as_deref(),
        Some("acct>>>???")
    );
    let padded = base64::engine::general_purpose::URL_SAFE.encode(b"{\"chatgpt_account_id\":\"abc\"}");
    assert!(padded.ends_with('='));
    assert_eq!(extract_account_id_from_jwt(&format!("h.{padded}.s")), None);
    let standard = base64::engine::general_purpose::STANDARD_NO_PAD.encode(claims);
    assert_eq!(extract_account_id_from_jwt(&format!("h.{standard}.s")), None);
}

#[test]
fn set_bits_behind_the_last_byte_are_refused() {
    // The next symbol of the alphabet differs in bits that belong to no byte.
    let with_account = base64_of(b"{\"chatgpt_account_id\":\"abcd\"}");
    assert_eq!(with_account.len() % 4, 3);
    let last = with_account.chars().last().map(|c| ((c as u8) + 1) as char);
    let spoiled: String =
        with_account.chars().take(with_account.len() - 1).chain(last).collect();
    assert_eq!(
        extract_account_id_from_jwt(&format!("h.{with_account}.s")).as_deref(),
        Some("abcd")
    );
    assert_eq!(extract_account_id_from_jwt(&format!("h.{spoiled}.s")), None);
}

#[test]
fn only_the_second_part_is_read() {
    let claims = base64_of(b"{\"chatgpt_account_id\":\"acct\"}");
    assert_eq!(extract_account_id_from_jwt(&format!(".{claims}")).as_deref(), Some("acct"));
    assert_eq!(
        extract_account_id_from_jwt(&format!("x.{claims}.y.z")).as_deref(),
        Some("acct")
    );
    assert_eq!(extract_account_id_from_jwt(&format!("{claims}.x.y")), None);
}

#[test]
fn escapes_in_claims_are_resolved() {
    assert_eq!(
        account("{\"chatgpt_account_id\":\"a\\u00e9\\n\"}").as_deref(),
        Some("aé\n")
    );
}

#[test]
fn json_documents_are_taken_apart() {
    let json = parse_json(b"{\"list\":[1,\"two\",{\"three\":[]}],\"text\":\"t\",\"none\":null}")
        .expect("a document");
    assert!(matches!(json.member("none"), Some(Json::Scalar)));
    assert!(matches!(json.member("text").and_then(Json::text), Some("t")));
    assert!(json.member("missing").is_none());
    assert!(json.first().is_none());
    assert!(json.text().is_none());
    let list = json.member("list").expect("a list");
    assert!(matches!(list.first(), Some(Json::Scalar)));
    match list {
        Json::List(items) => {
            assert_eq!(items.len(), 3);
            assert_eq!(items[1].text(), Some("two"));
            assert!(matches!(items[2].member("three"), Some(Json::List(inner)) if inner.is_empty()));
        }
        _ => panic!("no list"),
    }
    assert!(parse_json(b"{").is_none());
    assert!(parse_json(b"").is_none());
    assert!(parse_json(&[0xff]).is_none());
}

#[test]
fn claims_can_be_read_without_a_token() {
    let claims = Json::Record(vec![
        ("chatgpt_account_id".to_string(), Json::Text("early".to_string())),
        ("chatgpt_account_id".to_string(), Json::Text("late".to_string())),
    ]);
    assert_eq!(account_id_from_claims(&claims).as_deref(), Some("late"));
    assert_eq!(account_id_from_claims(&Json::Scalar), None);
}

#[test]
fn credentials_follow_from_a_response() {
    let mut answer = response("access", Some("refresh"));
    answer.expires_in = Some(10);
    let credentials =
        assemble_credentials(answer, None, 1_000, Some("id".to_string()), Some("ac".to_string()))
            .expect("credentials");
    assert_eq!(credentials.access_token, "access");
    assert_eq!(credentials.refresh_token, "refresh");
    assert_eq!(credentials.expires_at_ms, 11_000);
    assert_eq!(credentials.account_id.as_deref(), Some("id"));
}

#[test]
fn tokens_live_an_hour_unless_told_otherwise() {
    let credentials = credentials_at(response("a", Some("r")), None, 7).expect("credentials");
    assert_eq!(credentials.expires_at_ms, 3_600_007);
}

#[test]
fn the_end_stays_at_the_largest_number() {
    let mut answer = response("a", Some("r"));
    answer.expires_in = Some(u64::MAX);
    let credentials = credentials_at(answer, None, 0).expect("credentials");
    assert_eq!(credentials.expires_at_ms, u64::MAX);
    let mut answer = response("a", Some("r"));
    answer.expires_in = Some(u64::MAX / 1000);
    let credentials = credentials_at(answer, None, 0).expect("credentials");
    assert_eq!(credentials.expires_at_ms, u64::MAX / 1000 * 1000);
    let mut answer = response("a", Some("r"));
    answer.expires_in = Some(1);
    let credentials = credentials_at(answer, None, u64::MAX - 999).expect("credentials");
    assert_eq!(credentials.expires_at_ms, u64::MAX);
}

#[test]
fn a_longer_lifetime_never_ends_earlier() {
    let mut last: u64 = 0;
    for seconds in [0, 1, 59, 3600, u64::MAX / 1000, u64::MAX / 1000 + 1, u64::MAX] {
        let mut answer = response("a", Some("r"));
        answer.expires_in = Some(seconds);
        let credentials = credentials_at(answer, None, 50).expect("credentials");
        assert!(credentials.expires_at_ms >= 50);
        assert!(credentials.expires_at_ms >= last);
        last = credentials.expires_at_ms;
    }
}

#[test]
fn the_id_token_counts_before_the_access_token() {
    let mut answer = response(&jwt("{\"chatgpt_account_id\":\"from-access\"}"), Some("r"));
    answer.id_token = Some(jwt("{\"chatgpt_account_id\":\"from-id\"}"));
    let credentials = credentials_at(answer, Some(&earlier()), 0).expect("credentials");
    assert_eq!(credentials.account_id.as_deref(), Some("from-id"));
    let mut answer = response(&jwt("{\"chatgpt_account_id\":\"from-access\"}"), Some("r"));
    answer.id_token = Some(jwt("{}"));
    let credentials = credentials_at(answer, Some(&earlier()), 0).expect("credentials");
    assert_eq!(credentials.account_id.as_deref(), Some("from-access"));
}

#[test]
fn a_refresh_keeps_what_the_response_omits() {
    let credentials = credentials_at(response("new", None), Some(&earlier()), 0).expect("credentials");
    assert_eq!(credentials.access_token, "new");
    assert_eq!(credentials.refresh_token, "old-refresh");
    assert_eq!(credentials.account_id.as_deref(), Some("old-account"));
    let credentials =
        credentials_at(response("new", Some("next")), Some(&earlier()), 0).expect("credentials");
    assert_eq!(credentials.refresh_token, "next");
}

#[test]
fn an_empty_refresh_token_is_taken_as_it_is() {
    let credentials = credentials_at(response("a", Some("")), Some(&earlier()), 0).expect("credentials");
    assert_eq!(credentials.refresh_token, "");
}

#[test]
fn a_missing_refresh_token_is_an_error() {
    match credentials_at(response("a", None), None, 0) {
        Err(error) => {
            assert!(matches!(error, CodexError::MissingRefreshToken));
            assert_eq!(
                error.message(),
                "OpenAI OAuth response did not include a refresh token"
            );
        }
        Ok(_) => panic!("credentials without a refresh token"),
    }
    assert!(matches!(
        credentials_from_token_response(response("a", None), None),
        Err(CodexError::MissingRefreshToken)
    ));
}

#[test]
fn a_sign_in_needs_no_account() {
    let credentials = credentials_at(response("opaque", Some("r")), None, 0).expect("credentials");
    assert_eq!(credentials.account_id, None);
}

#[test]
fn credentials_are_made_by_the_clock() {
    let before = openai_codex::clock::now_ms();
    let mut answer = response("a", Some("r"));
    answer.expires_in = Some(1);
    let credentials = credentials_from_token_response(answer, None).expect("credentials");
    let after = openai_codex::clock::now_ms();
    assert!(before + 1_000 <= credentials.expires_at_ms);
    assert!(credentials.expires_at_ms <= after + 1_000);
}

#[test]
fn copies_hold_the_same() {
    let copy = earlier().clone();
    assert_eq!(copy.access_token, "old-access");
    assert_eq!(copy.refresh_token, "old-refresh");
    assert_eq!(copy.expires_at_ms, 5);
    assert_eq!(copy.account_id.as_deref(), Some("old-account"));
}

#[test]
fn debug_output_of_credentials_hides_the_tokens() {
    assert_eq!(
        earlier().debug_text(),
        "OpenAiCodexCredentials { access_token: \"[redacted]\", refresh_token: \"[redacted]\", \
         expires_at_ms: 5, account_id: Some(\"old-account\") }"
    );
    let mut credentials = earlier();
    credentials.account_id = None;
    credentials.expires_at_ms = u64::MAX;
    assert_eq!(
        credentials.debug_text(),
        "OpenAiCodexCredentials { access_token: \"[redacted]\", refresh_token: \"[redacted]\", \
         expires_at_ms: 18446744073709551615, account_id: None }"
    );
}

#[test]
fn debug_output_escapes_the_account() {
    let mut credentials = earlier();
    credentials.account_id = Some("a\"b\\c\n".to_string());
    assert!(credentials.debug_text().ends_with("account_id: Some(\"a\\\"b\\\\c\\n\") }"));
}

#[test]
fn debug_output_of_a_response_hides_the_tokens() {
    let mut answer = response("secret-access", Some("secret-refresh"));
    answer.expires_in = Some(1203);
    answer.id_token = Some("secret-id".to_string());
    assert_eq!(
        answer.debug_text(),
        "TokenResponse { access_token: \"[redacted]\", refresh_token: Some(\"[redacted]\"), \
         expires_in: Some(1203), id_token: Some(\"[redacted]\") }"
    );
    assert_eq!(
        response("secret-access", None).debug_text(),
        "TokenResponse { access_token: \"[redacted]\", refresh_token: None, expires_in: None, \
         id_token: None }"
    );
}

/// Types of the same names and fields, whose debug output std writes.
#[derive(Debug)]
#[allow(dead_code)]
struct OpenAiCodexCredentialsShown {
    access_token: &'static str,
    refresh_token: &'static str,
    expires_at_ms: u64,
    account_id: Option<String>,
}

#[derive(Debug)]
#[allow(dead_code)]
struct TokenResponseShown {
    access_token: &'static str,
    refresh_token: Option<&'static str>,
    expires_in: Option<u64>,
    id_token: Option<&'static str>,
}

#[derive(Debug)]
#[allow(dead_code)]
struct PkceChallengeShown {
    verifier: &'static str,
    challenge: String,
}

#[test]
fn debug_output_of_credentials_is_laid_out_as_usual() {
    for account_id in [None, Some("a\"b\\c\né".to_string()), Some(String::new())] {
        let mut credentials = earlier();
        credentials.account_id = account_id.clone();
        let shown = OpenAiCodexCredentialsShown {
            access_token: "[redacted]",
            refresh_token: "[redacted]",
            expires_at_ms: 5,
            account_id,
        };
        assert_eq!(credentials.debug_text(), format!("{shown:?}").replace("Shown", ""));
        assert_eq!(credentials.debug_lines(), format!("{shown:#?}").replace("Shown", ""));
    }
}

#[test]
fn debug_output_of_a_response_is_laid_out_as_usual() {
    for (refresh_token, expires_in, id_token) in [
        (None, None, None),
        (Some("[redacted]"), Some(1203), None),
        (None, Some(0), Some("[redacted]")),
    ] {
        let mut answer = response("secret-access", refresh_token.map(|_| "secret-refresh"));
        answer.expires_in = expires_in;
        answer.id_token = id_token.map(|_| "secret-id".to_string());
        let shown = TokenResponseShown {
            access_token: "[redacted]",
            refresh_token,
            expires_in,
            id_token,
        };
        assert_eq!(answer.debug_text(), format!("{shown:?}").replace("Shown", ""));
        assert_eq!(answer.debug_lines(), format!("{shown:#?}").replace("Shown", ""));
    }
}

#[test]
fn debug_output_of_a_challenge_hides_the_verifier() {
    let pkce = challenge_for("secret-verifier".to_string());
    let shown = PkceChallengeShown { verifier: "[redacted]", challenge: pkce.challenge.clone() };
    assert_eq!(pkce.debug_text(), format!("{shown:?}").replace("Shown", ""));
    assert_eq!(pkce.debug_lines(), format!("{shown:#?}").replace("Shown", ""));
    assert_eq!(
        pkce.debug_text(),
        format!("PkceChallenge {{ verifier: \"[redacted]\", challenge: \"{}\" }}", pkce.challenge)
    );
}

#[test]
fn many_lines_of_debug_output_hide_the_tokens() {
    let mut other = earlier();
    other.access_token = "other-access".to_string();
    other.refresh_token = "other-refresh".to_string();
    assert_eq!(other.debug_lines(), earlier().debug_lines());
    assert_eq!(
        other.debug_lines(),
        "OpenAiCodexCredentials {\n    access_token: \"[redacted]\",\n    \
         refresh_token: \"[redacted]\",\n    expires_at_ms: 5,\n    account_id: Some(\n        \
         \"old-account\",\n    ),\n}"
    );
}

#[test]
fn numbers_are_written_in_decimal() {
    for number in [0, 9, 10, 99, 100, 1_234_567_890, u64::MAX] {
        assert_eq!(openai_codex::redaction::decimal_text(number), format!("{number}"));
    }
}
