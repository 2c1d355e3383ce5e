//! Requests to send, and what becomes of their answers.

use crate::error::CodexError;
use crate::text::{
    ascii_lowercase, contains_lowercased, contains_text, excerpt, occurs_in, take_chars, trim,
    trim_end_slashes, trimmed, without_trailing_slashes,
};
use vstd::prelude::*;

verus! {

/// The name under which this client makes itself known.
pub const ORIGINATOR: &'static str = "zed";

/// How many characters of an answer an error repeats.
pub const EXCERPT_LENGTH: usize = 512;

/// What a request holds.
pub struct HttpRequestView {
    pub method: Seq<char>,
    pub uri: Seq<char>,
    pub headers: Seq<(Seq<char>, Seq<char>)>,
    pub body: Seq<char>,
}

/// A request that is ready to be sent.
pub struct HttpRequest {
    pub method: &'static str,
    pub uri: String,
    pub headers: Vec<(&'static str, String)>,
    pub body: String,
}

/// The characters of headers.
pub open spec fn header_texts(headers: Seq<(&'static str, String)>) -> Seq<(Seq<char>, Seq<char>)> {
    headers.map_values(|header: (&'static str, String)| (header.0@, header.1@))
}

impl View for HttpRequest {
    type V = HttpRequestView;

    open spec fn view(&self) -> HttpRequestView {
        HttpRequestView {
            method: self.method@,
            uri: self.uri@,
            headers: header_texts(self.headers@),
            body: self.body@,
        }
    }
}

/// The answer with this status is a success.
pub open spec fn is_success(status: u16) -> bool {
    200 <= status < 300
}

/// The request that posts a form to the token endpoint.
pub open spec fn token_post(token_url: Seq<char>, form: Seq<char>) -> HttpRequestView {
    HttpRequestView {
        method: "POST"@,
        uri: token_url,
        headers: seq![("Content-Type"@, "application/x-www-form-urlencoded"@)],
        body: form,
    }
}

/// The request that posts a JSON document to the responses endpoint.
pub open spec fn codex_post(
    api_url: Seq<char>,
    access_token: Seq<char>,
    account_id: Seq<char>,
    json: Seq<char>,
) -> HttpRequestView {
    HttpRequestView {
        method: "POST"@,
        uri: without_trailing_slashes(api_url) + "/responses"@,
        headers: seq![
            ("Authorization"@, "Bearer "@ + trimmed(access_token)),
            ("ChatGPT-Account-ID"@, account_id),
            ("Accept"@, "text/event-stream"@),
            ("Content-Type"@, "application/json"@),
            ("originator"@, ORIGINATOR@),
        ],
        body: json,
    }
}

/// Cloudflare refused the request: the status is 403 and the answer speaks of it.
pub open spec fn is_cloudflare_refusal(status: u16, body: Seq<char>) -> bool {
    status == 403 && occurs_in(ascii_lowercase(body), "cloudflare"@)
}

/// The error that an answer of the responses endpoint ends in.
pub open spec fn is_codex_failure(
    status: u16,
    status_line: Seq<char>,
    body: Seq<char>,
    error: CodexError,
) -> bool {
    if is_cloudflare_refusal(status, body) {
        error is Cloudflare
    } else {
        &&& error is RequestFailed
        &&& error->RequestFailed_status@ == status_line
        &&& error->RequestFailed_excerpt@ == excerpt(body, EXCERPT_LENGTH as nat)
    }
}

/// The token endpoint says that the refresh token is no longer valid.
pub open spec fn is_refused_grant(status: u16, body: Seq<char>) -> bool {
    (status == 400 || status == 401) && occurs_in(body, "invalid_grant"@)
}

/// The character can stand in a header: it is no control character but the tab.
pub open spec fn is_header_char(c: char) -> bool {
    c == '\t' || (c >= ' ' && c != '\u{7f}')
}

/// The text can stand in a header.
pub open spec fn is_header_value(text: Seq<char>) -> bool {
    forall|i: int| 0 <= i < text.len() ==> is_header_char(#[trigger] text[i])
}

/// Both values of a request to the responses endpoint that come from outside can stand in a header.
pub open spec fn are_header_values(access_token: Seq<char>, account_id: Seq<char>) -> bool {
    is_header_value(trimmed(access_token)) && is_header_value(account_id)
}

/// What becomes of an answer of the responses endpoint.
pub enum CodexReply {
    /// The events of the response follow in the body.
    Stream,
    /// The access token is to be refreshed, and the request sent once more.
    RefreshAndRetry,
    /// The request failed.
    Failed(CodexError),
}

/// What the token endpoint's answer gives: the body of a success, or the error that it ends in.
pub open spec fn is_token_reply(
    status: u16,
    status_line: Seq<char>,
    body: Seq<char>,
    outcome: Result<String, CodexError>,
) -> bool {
    match outcome {
        Ok(text) => is_success(status) && text@ == body,
        Err(error) => {
            &&& !is_success(status)
            &&& error is TokenEndpoint
            &&& error->TokenEndpoint_status@ == status_line
            &&& error->TokenEndpoint_excerpt@ == excerpt(body, EXCERPT_LENGTH as nat)
        },
    }
}

/// What the token endpoint's answer to a refresh gives.
pub open spec fn is_refresh_reply(
    status: u16,
    status_line: Seq<char>,
    body: Seq<char>,
    outcome: Result<String, CodexError>,
) -> bool {
    if is_refused_grant(status, body) {
        outcome is Err && outcome->Err_0 is SignInExpired
    } else {
        is_token_reply(status, status_line, body, outcome)
    }
}

/// The request to the responses endpoint, or the refusal to make one.
pub open spec fn is_codex_request(
    api_url: Seq<char>,
    access_token: Seq<char>,
    account_id: Seq<char>,
    json: Seq<char>,
    outcome: Result<HttpRequest, CodexError>,
) -> bool {
    match outcome {
        Ok(request) => {
            &&& are_header_values(access_token, account_id)
            &&& request@ == codex_post(api_url, access_token, account_id, json)
        },
        Err(error) => {
            &&& !are_header_values(access_token, account_id)
            &&& error is InvalidHeader
        },
    }
}

/// What becomes of an answer of the responses endpoint.
pub open spec fn is_codex_reply(
    status: u16,
    status_line: Seq<char>,
    body: Seq<char>,
    retried: bool,
    reply: CodexReply,
) -> bool {
    if is_success(status) {
        reply is Stream
    } else if status == 401 && !retried {
        reply is RefreshAndRetry
    } else {
        &&& reply is Failed
        &&& is_codex_failure(status, status_line, body, reply->Failed_0)
    }
}

/// Gives the part of an answer that an error repeats.
pub fn safe_excerpt(body: &str) -> (r: String)
    ensures
        r@ == excerpt(body@, EXCERPT_LENGTH as nat),
{
    take_chars(body, EXCERPT_LENGTH)
}

/// Makes the request that posts a form to the token endpoint.
pub fn token_request(token_url: &str, form: String) -> (r: HttpRequest)
    ensures
        r@ == token_post(token_url@, form@),
{
    let mut headers: Vec<(&'static str, String)> = Vec::new();
    headers.push(("Content-Type", "application/x-www-form-urlencoded".to_owned()));
    let request = HttpRequest { method: "POST", uri: token_url.to_owned(), headers, body: form };
    assert(request@.headers == token_post(token_url@, form@).headers);
    request
}

/// Reads the token endpoint's answer: the body of a success, or the error that it ends in. The
/// status line is the status with its reason, as it is told to people.
pub fn token_reply(status: u16, status_line: &str, body: String) -> (r: Result<String, CodexError>)
    ensures
        is_token_reply(status, status_line@, body@, r),
{
    if succeeded(status) {
        Ok(body)
    } else {
        Err(
            CodexError::TokenEndpoint {
                status: status_line.to_owned(),
                excerpt: safe_excerpt(body.as_str()),
            },
        )
    }
}

/// Reads the token endpoint's answer to a refresh: as `token_reply`, but where the refresh token is
/// no longer valid, the sign-in has expired.
pub fn refresh_reply(status: u16, status_line: &str, body: String) -> (r: Result<
    String,
    CodexError,
>)
    ensures
        is_refresh_reply(status, status_line@, body@, r),
{
    if (status == 400 || status == 401) && contains_text(body.as_str(), "invalid_grant") {
        return Err(CodexError::SignInExpired);
    }
    token_reply(status, status_line, body)
}

/// Tells whether the text can stand in a header.
fn fits_header(text: &str) -> (r: bool)
    ensures
        r == is_header_value(text@),
{
    for c in iter: text.chars()
        invariant
            iter.seq() == text@,
            forall|i: int| 0 <= i < iter.index() ==> is_header_char(#[trigger] text@[i]),
    {
        if !(c == '\t' || (c >= ' ' && c != '\u{7f}')) {
            assert(!is_header_char(text@[iter.index()]));
            return false;
        }
    }
    true
}

/// Makes the request that posts a JSON document to the responses endpoint, unless the token or the
/// account cannot stand in a header.
pub fn codex_request(api_url: &str, access_token: &str, account_id: &str, json: String) -> (r:
    Result<HttpRequest, CodexError>)
    ensures
        is_codex_request(api_url@, access_token@, account_id@, json@, r),
{
    let token = trim(access_token);
    if !fits_header(token) || !fits_header(account_id) {
        return Err(CodexError::InvalidHeader);
    }
    let mut headers: Vec<(&'static str, String)> = Vec::new();
    headers.push(("Authorization", "Bearer ".to_owned().concat(token)));
    headers.push(("ChatGPT-Account-ID", account_id.to_owned()));
    headers.push(("Accept", "text/event-stream".to_owned()));
    headers.push(("Content-Type", "application/json".to_owned()));
    headers.push(("originator", ORIGINATOR.to_owned()));
    let uri = trim_end_slashes(api_url).to_owned().concat("/responses");
    let request = HttpRequest { method: "POST", uri, headers, body: json };
    assert(request@.headers == codex_post(api_url@, access_token@, account_id@, json@).headers);
    Ok(request)
}

/// Tells whether the answer with this status is a success.
pub fn succeeded(status: u16) -> (r: bool)
    ensures
        r == is_success(status),
{
    200 <= status && status < 300
}

/// Makes the error of an answer of the responses endpoint that is no success.
pub fn codex_failure(status: u16, status_line: &str, body: &str) -> (r: CodexError)
    ensures
        is_codex_failure(status, status_line@, body@, r),
{
    if status == 403 && contains_lowercased(body, "cloudflare") {
        return CodexError::Cloudflare;
    }
    CodexError::RequestFailed { status: status_line.to_owned(), excerpt: safe_excerpt(body) }
}

/// Decides what becomes of an answer of the responses endpoint to a request that was, or was not,
/// sent once before. The first answer that refuses the access token asks for another try; the body
/// counts only where the answer is no success.
pub fn codex_reply(status: u16, status_line: &str, body: &str, retried: bool) -> (r: CodexReply)
    ensures
        is_codex_reply(status, status_line@, body@, retried, r),
{
    if succeeded(status) {
        CodexReply::Stream
    } else if status == 401 && !retried {
        CodexReply::RefreshAndRetry
    } else {
        CodexReply::Failed(codex_failure(status, status_line, body))
    }
}

} // verus!
