//! Tokens of a ChatGPT account.

use crate::clock::{clock_showed_millis, now_ms};
use crate::encoding::{base64_decode, url_safe_base64_is_injective, url_safe_decoded};
use crate::error::CodexError;
use crate::json::{json_document, parse_json, Json, JsonTree};
use crate::text::{optional_text, second_of, second_piece};
use vstd::prelude::*;

verus! {

/// The lifetime in seconds of a token whose response does not tell it.
pub const DEFAULT_LIFETIME_SECONDS: u64 = 3600;

/// What credentials hold.
pub struct CredentialsView {
    pub access_token: Seq<char>,
    pub refresh_token: Seq<char>,
    pub expires_at_ms: u64,
    pub account_id: Option<Seq<char>>,
}

/// The tokens of an account, as they are kept between runs.
pub struct OpenAiCodexCredentials {
    pub access_token: String,
    pub refresh_token: String,
    pub expires_at_ms: u64,
    /// Missing where no token tells it: the first request then asks for a new sign-in.
    pub account_id: Option<String>,
}

impl View for OpenAiCodexCredentials {
    type V = CredentialsView;

    open spec fn view(&self) -> CredentialsView {
        CredentialsView {
            access_token: self.access_token@,
            refresh_token: self.refresh_token@,
            expires_at_ms: self.expires_at_ms,
            account_id: optional_text(self.account_id),
        }
    }
}

/// Copies a text that may be missing.
pub(crate) fn copy_text(text: &Option<String>) -> (r: Option<String>)
    ensures
        r == *text,
{
    match text {
        Some(text) => Some(text.clone()),
        None => None,
    }
}

impl Clone for OpenAiCodexCredentials {
    fn clone(&self) -> (r: Self)
        ensures
            r == *self,
    {
        OpenAiCodexCredentials {
            access_token: self.access_token.clone(),
            refresh_token: self.refresh_token.clone(),
            expires_at_ms: self.expires_at_ms,
            account_id: copy_text(&self.account_id),
        }
    }
}

/// What a token response holds.
pub struct TokenResponseView {
    pub access_token: Seq<char>,
    pub refresh_token: Option<Seq<char>>,
    pub expires_in: Option<u64>,
    pub id_token: Option<Seq<char>>,
}

/// What the token endpoint answers.
pub struct TokenResponse {
    pub access_token: String,
    pub refresh_token: Option<String>,
    pub expires_in: Option<u64>,
    pub id_token: Option<String>,
}

impl View for TokenResponse {
    type V = TokenResponseView;

    open spec fn view(&self) -> TokenResponseView {
        TokenResponseView {
            access_token: self.access_token@,
            refresh_token: optional_text(self.refresh_token),
            expires_in: self.expires_in,
            id_token: optional_text(self.id_token),
        }
    }
}

/// The first of two values that is there.
pub open spec fn or_else<T>(first: Option<T>, second: Option<T>) -> Option<T> {
    if first is Some {
        first
    } else {
        second
    }
}

/// The text of a member of a record.
pub open spec fn member_text(tree: JsonTree, name: Seq<char>) -> Option<Seq<char>> {
    match tree.member(name) {
        Some(member) => member.text(),
        None => None,
    }
}

/// The account that the claims name: directly, under the dotted name, inside the claim
/// `https://api.openai.com/auth`, or as the first organization, whichever comes first.
pub open spec fn account_id_in(claims: JsonTree) -> Option<Seq<char>> {
    let direct = member_text(claims, "chatgpt_account_id"@);
    let dotted = member_text(claims, "https://api.openai.com/auth.chatgpt_account_id"@);
    let nested = match claims.member("https://api.openai.com/auth"@) {
        Some(auth) => member_text(auth, "chatgpt_account_id"@),
        None => None,
    };
    let organization = match claims.member("organizations"@) {
        Some(organizations) => match organizations.first() {
            Some(first) => member_text(first, "id"@),
            None => None,
        },
        None => None,
    };
    or_else(direct, or_else(dotted, or_else(nested, organization)))
}

/// The account that a token names: its second part is the base64 text of a JSON document that
/// holds the claims.
pub open spec fn account_id_in_jwt(jwt: Seq<char>) -> Option<Seq<char>> {
    match second_piece(jwt, '.') {
        Some(payload) => match url_safe_decoded(payload) {
            Some(bytes) => match json_document(bytes) {
                Some(claims) => account_id_in(claims),
                None => None,
            },
            None => None,
        },
        None => None,
    }
}

/// The account that a token names, where there is a token.
pub open spec fn account_id_in_optional_jwt(jwt: Option<Seq<char>>) -> Option<Seq<char>> {
    match jwt {
        Some(jwt) => account_id_in_jwt(jwt),
        None => None,
    }
}

/// The time at which a token ends that lives `expires_in` seconds from `now_ms` on. Both the
/// milliseconds and the sum stay at the largest 64-bit number where they would pass it.
pub open spec fn expiry(now_ms: u64, expires_in: Option<u64>) -> u64 {
    let seconds = match expires_in {
        Some(seconds) => seconds,
        None => DEFAULT_LIFETIME_SECONDS,
    };
    let lifetime = if seconds * 1000 <= u64::MAX {
        seconds * 1000
    } else {
        u64::MAX as int
    };
    if now_ms + lifetime <= u64::MAX {
        (now_ms + lifetime) as u64
    } else {
        u64::MAX
    }
}

/// The credentials that follow from a token response at a time, earlier credentials and the
/// accounts that the response's two tokens name. There are none without a refresh token.
pub open spec fn credentials_with(
    response: TokenResponseView,
    previous: Option<CredentialsView>,
    now_ms: u64,
    id_token_account: Option<Seq<char>>,
    access_token_account: Option<Seq<char>>,
) -> Option<CredentialsView> {
    let previous_refresh = match previous {
        Some(previous) => Some(previous.refresh_token),
        None => None,
    };
    let previous_account = match previous {
        Some(previous) => previous.account_id,
        None => None,
    };
    match or_else(response.refresh_token, previous_refresh) {
        Some(refresh_token) => Some(
            CredentialsView {
                access_token: response.access_token,
                refresh_token,
                expires_at_ms: expiry(now_ms, response.expires_in),
                account_id: or_else(
                    id_token_account,
                    or_else(access_token_account, previous_account),
                ),
            },
        ),
        None => None,
    }
}

/// The credentials that follow from a token response at a time and earlier credentials.
pub open spec fn credentials_of(
    response: TokenResponseView,
    previous: Option<CredentialsView>,
    now_ms: u64,
) -> Option<CredentialsView> {
    credentials_with(
        response,
        previous,
        now_ms,
        account_id_in_optional_jwt(response.id_token),
        account_id_in_jwt(response.access_token),
    )
}

/// What optional credentials hold.
pub open spec fn optional_view(credentials: Option<&OpenAiCodexCredentials>) -> Option<
    CredentialsView,
> {
    match credentials {
        Some(credentials) => Some(credentials@),
        None => None,
    }
}

/// Gives the text of a member of a record.
fn text_of_member<'a>(json: &'a Json, name: &str) -> (r: Option<&'a str>)
    ensures
        match r {
            Some(text) => member_text(json@, name@) == Some(text@),
            None => member_text(json@, name@) is None,
        },
{
    match json.member(name) {
        Some(member) => member.text(),
        None => None,
    }
}

/// Gives the account that the claims name.
pub fn account_id_from_claims(claims: &Json) -> (r: Option<String>)
    ensures
        optional_text(r) == account_id_in(claims@),
{
    if let Some(id) = text_of_member(claims, "chatgpt_account_id") {
        return Some(id.to_owned());
    }
    if let Some(id) = text_of_member(claims, "https://api.openai.com/auth.chatgpt_account_id") {
        return Some(id.to_owned());
    }
    if let Some(auth) = claims.member("https://api.openai.com/auth") {
        if let Some(id) = text_of_member(auth, "chatgpt_account_id") {
            return Some(id.to_owned());
        }
    }
    if let Some(organizations) = claims.member("organizations") {
        if let Some(organization) = organizations.first() {
            if let Some(id) = text_of_member(organization, "id") {
                return Some(id.to_owned());
            }
        }
    }
    None
}

/// Gives the account that a token names.
pub fn extract_account_id_from_jwt(jwt: &str) -> (r: Option<String>)
    ensures
        optional_text(r) == account_id_in_jwt(jwt@),
{
    let payload = match second_of(jwt, '.') {
        Some(payload) => payload,
        None => {
            return None;
        },
    };
    let bytes = match base64_decode(payload) {
        Some(bytes) => bytes,
        None => {
            return None;
        },
    };
    proof {
        let decoded = url_safe_decoded(payload@)->Some_0;
        url_safe_base64_is_injective(decoded, bytes@);
    }
    match parse_json(bytes.as_slice()) {
        Some(claims) => account_id_from_claims(&claims),
        None => None,
    }
}

/// Makes credentials of a token response, earlier credentials, the time and the accounts that the
/// response's two tokens name.
pub fn assemble_credentials(
    token_response: TokenResponse,
    previous: Option<&OpenAiCodexCredentials>,
    now_ms: u64,
    id_token_account: Option<String>,
    access_token_account: Option<String>,
) -> (r: Result<OpenAiCodexCredentials, CodexError>)
    ensures
        ({
            let expected = credentials_with(
                token_response@,
                optional_view(previous),
                now_ms,
                optional_text(id_token_account),
                optional_text(access_token_account),
            );
            match r {
                Ok(credentials) => expected == Some(credentials@),
                Err(error) => expected is None && error is MissingRefreshToken,
            }
        }),
{
    let refresh_token = match token_response.refresh_token {
        Some(refresh_token) => refresh_token,
        None => match previous {
            Some(previous) => previous.refresh_token.clone(),
            None => {
                return Err(CodexError::MissingRefreshToken);
            },
        },
    };
    let seconds: u64 = match token_response.expires_in {
        Some(seconds) => seconds,
        None => DEFAULT_LIFETIME_SECONDS,
    };
    let lifetime: u64 = match seconds.checked_mul(1000) {
        Some(millis) => millis,
        None => u64::MAX,
    };
    let account_id = match id_token_account {
        Some(id) => Some(id),
        None => match access_token_account {
            Some(id) => Some(id),
            None => match previous {
                Some(previous) => copy_text(&previous.account_id),
                None => None,
            },
        },
    };
    Ok(
        OpenAiCodexCredentials {
            access_token: token_response.access_token,
            refresh_token,
            expires_at_ms: now_ms.saturating_add(lifetime),
            account_id,
        },
    )
}

/// Makes credentials of a token response and earlier credentials, as of the time `now_ms`.
pub fn credentials_at(
    token_response: TokenResponse,
    previous: Option<&OpenAiCodexCredentials>,
    now_ms: u64,
) -> (r: Result<OpenAiCodexCredentials, CodexError>)
    ensures
        ({
            let expected = credentials_of(token_response@, optional_view(previous), now_ms);
            match r {
                Ok(credentials) => expected == Some(credentials@),
                Err(error) => expected is None && error is MissingRefreshToken,
            }
        }),
{
    let id_token_account = match &token_response.id_token {
        Some(id_token) => extract_account_id_from_jwt(id_token.as_str()),
        None => None,
    };
    let access_token_account = extract_account_id_from_jwt(token_response.access_token.as_str());
    assemble_credentials(token_response, previous, now_ms, id_token_account, access_token_account)
}

/// Makes credentials of a token response and earlier credentials, as of the time that the clock
/// shows.
pub fn credentials_from_token_response(
    token_response: TokenResponse,
    previous: Option<&OpenAiCodexCredentials>,
) -> (r: Result<OpenAiCodexCredentials, CodexError>)
    ensures
        match r {
            Ok(credentials) => exists|now_ms: u64| #[trigger]
                clock_showed_millis(now_ms) && credentials_of(
                    token_response@,
                    optional_view(previous),
                    now_ms,
                ) == Some(credentials@),
            Err(error) => {
                &&& token_response.refresh_token is None
                &&& previous is None
                &&& error is MissingRefreshToken
            },
        },
{
    let now_ms: u64 = now_ms();
    credentials_at(token_response, previous, now_ms)
}

} // verus!
