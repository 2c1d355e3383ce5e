//! The authorization-code flow: what is sent out and what is asked for.

use crate::credentials::OpenAiCodexCredentials;
use crate::encoding::{
    base64_encode, fill_random, form_encode, form_encoded, percent_encode, percent_encoded, sha256,
    sha256_digest, str_pairs, url_safe_base64,
};
use crate::error::CodexError;
use crate::http::{token_post, token_request, HttpRequest, ORIGINATOR};
use crate::text::{trim_end_slashes, without_trailing_slashes};
use vstd::prelude::*;
use vstd::utf8::encode_utf8;

verus! {

/// The client that the authorization server knows.
pub const CLIENT_ID: &'static str = "app_EMoamEEZ73f0CkXaXp7hrann";

/// Where the authorization server sends the browser back to.
pub const REDIRECT_URI: &'static str = "http://localhost:1455/auth/callback";

/// What the sign-in asks for.
pub const SCOPE: &'static str = "openid profile email offline_access";

/// How many random bytes a verifier or a state is made of.
pub const SECRET_LENGTH: usize = 32;

/// A secret and the digest by which it is announced. Its debug output is `debug_text`, in which the
/// secret cannot be read.
pub struct PkceChallenge {
    pub verifier: String,
    pub challenge: String,
}

/// The challenge that announces a verifier: the base64 text of its SHA-256 digest.
pub open spec fn challenge_of(verifier: Seq<char>) -> Seq<char> {
    url_safe_base64(sha256(encode_utf8(verifier)))
}

/// The page on which the user signs in.
pub open spec fn authorization_url(
    auth_url: Seq<char>,
    challenge: Seq<char>,
    state: Seq<char>,
) -> Seq<char> {
    without_trailing_slashes(auth_url) + "/oauth/authorize?response_type=code&client_id="@
        + CLIENT_ID@ + "&redirect_uri="@ + percent_encoded(encode_utf8(REDIRECT_URI@)) + "&scope="@
        + percent_encoded(encode_utf8(SCOPE@)) + "&code_challenge="@ + challenge
        + "&code_challenge_method=S256&state="@ + state
        + "&id_token_add_organizations=true&codex_cli_simplified_flow=true&originator="@
        + ORIGINATOR@
}

/// The endpoint that hands out tokens.
pub open spec fn token_endpoint(auth_url: Seq<char>) -> Seq<char> {
    without_trailing_slashes(auth_url) + "/oauth/token"@
}

/// The form that asks for tokens against a code.
pub open spec fn exchange_pairs(code: Seq<char>, verifier: Seq<char>) -> Seq<
    (Seq<char>, Seq<char>),
> {
    seq![
        ("grant_type"@, "authorization_code"@),
        ("client_id"@, CLIENT_ID@),
        ("code"@, code),
        ("code_verifier"@, verifier),
        ("redirect_uri"@, REDIRECT_URI@),
    ]
}

/// The form that asks for tokens against a refresh token.
pub open spec fn refresh_pairs(refresh_token: Seq<char>) -> Seq<(Seq<char>, Seq<char>)> {
    seq![
        ("grant_type"@, "refresh_token"@),
        ("client_id"@, CLIENT_ID@),
        ("refresh_token"@, refresh_token),
    ]
}

/// Makes the base64 text of random bytes.
pub fn random_url_safe(bytes: usize) -> (r: String)
    requires
        4 * bytes / 3 < isize::MAX,
    ensures
        exists|random: Seq<u8>| random.len() == bytes && r@ == #[trigger] url_safe_base64(random),
{
    let mut random: Vec<u8> = vec![0; bytes];
    fill_random(&mut random);
    base64_encode(random.as_slice())
}

/// Announces a verifier.
pub fn challenge_for(verifier: String) -> (r: PkceChallenge)
    ensures
        r.verifier@ == verifier@,
        r.challenge@ == challenge_of(verifier@),
        r.challenge@.len() == 43,
{
    let digest = sha256_digest(verifier.as_str().as_bytes());
    let challenge = base64_encode(digest.as_slice());
    PkceChallenge { verifier, challenge }
}

/// Makes a new verifier and announces it.
pub fn generate_pkce_challenge() -> (r: PkceChallenge)
    ensures
        exists|random: Seq<u8>|
            random.len() == SECRET_LENGTH && r.verifier@ == #[trigger] url_safe_base64(random),
        r.challenge@ == challenge_of(r.verifier@),
        r.verifier@.len() == 43,
        r.challenge@.len() == 43,
{
    let verifier = random_url_safe(SECRET_LENGTH);
    challenge_for(verifier)
}

/// Makes the address of the page on which the user signs in.
pub fn build_authorization_url(auth_url: &str, challenge: &str, state: &str) -> (r: String)
    ensures
        r@ == authorization_url(auth_url@, challenge@, state@),
{
    trim_end_slashes(auth_url).to_owned().concat(
        "/oauth/authorize?response_type=code&client_id=",
    ).concat(CLIENT_ID).concat("&redirect_uri=").concat(
        percent_encode(REDIRECT_URI).as_str(),
    ).concat("&scope=").concat(percent_encode(SCOPE).as_str()).concat("&code_challenge=").concat(
        challenge,
    ).concat("&code_challenge_method=S256&state=").concat(state).concat(
        "&id_token_add_organizations=true&codex_cli_simplified_flow=true&originator=",
    ).concat(ORIGINATOR)
}

/// Makes the address of the endpoint that hands out tokens.
pub fn token_url(auth_url: &str) -> (r: String)
    ensures
        r@ == token_endpoint(auth_url@),
{
    trim_end_slashes(auth_url).to_owned().concat("/oauth/token")
}

/// Makes the request for tokens against a code.
pub fn exchange_code_for_credentials(token_url: &str, code: &str, verifier: &str) -> (r: Result<
    HttpRequest,
    CodexError,
>)
    ensures
        r is Ok,
        r->Ok_0@ == token_post(token_url@, form_encoded(exchange_pairs(code@, verifier@))),
{
    let mut pairs: Vec<(&str, &str)> = Vec::new();
    pairs.push(("grant_type", "authorization_code"));
    pairs.push(("client_id", CLIENT_ID));
    pairs.push(("code", code));
    pairs.push(("code_verifier", verifier));
    pairs.push(("redirect_uri", REDIRECT_URI));
    assert(str_pairs(pairs@) == exchange_pairs(code@, verifier@));
    match form_encode(&pairs) {
        Ok(form) => Ok(token_request(token_url, form)),
        Err(message) => Err(CodexError::Service(message)),
    }
}

/// Makes the request for tokens against the refresh token of earlier credentials.
pub fn refresh_credentials(auth_url: &str, credentials: &OpenAiCodexCredentials) -> (r: Result<
    HttpRequest,
    CodexError,
>)
    ensures
        r is Ok,
        r->Ok_0@ == token_post(
            token_endpoint(auth_url@),
            form_encoded(refresh_pairs(credentials@.refresh_token)),
        ),
{
    let endpoint = token_url(auth_url);
    let mut pairs: Vec<(&str, &str)> = Vec::new();
    pairs.push(("grant_type", "refresh_token"));
    pairs.push(("client_id", CLIENT_ID));
    pairs.push(("refresh_token", credentials.refresh_token.as_str()));
    assert(str_pairs(pairs@) == refresh_pairs(credentials@.refresh_token));
    match form_encode(&pairs) {
        Ok(form) => Ok(token_request(endpoint.as_str(), form)),
        Err(message) => Err(CodexError::Service(message)),
    }
}

} // verus!
