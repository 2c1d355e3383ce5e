//! What requests carry, and what becomes of their answers.

use super::text::{
    addresses_come_out_whole, all_slashes, all_white_space, needles_stand_between_texts,
    trimming_keeps_what_is_inside,
};
use crate::error::CodexError;
use crate::http::{
    codex_post, is_cloudflare_refusal, is_codex_reply, is_codex_request, is_header_char,
    is_header_value, is_refresh_reply, is_success, is_token_reply, token_post, CodexReply,
    HttpRequest,
};
use crate::redaction::decimal;
use crate::text::{ascii_lowercase, is_white_space, occurs_at, occurs_in, trimmed};
use vstd::prelude::*;

verus! {

/// The view of a request shows each part of it, and every header in its place.
pub proof fn request_views_show_every_part(request: HttpRequest)
    ensures
        request@.method == request.method@,
        request@.uri == request.uri@,
        request@.body == request.body@,
        request@.headers.len() == request.headers@.len(),
        forall|i: int|
            0 <= i < request.headers@.len() ==> {
                &&& (#[trigger] request@.headers[i]).0 == request.headers@[i].0@
                &&& request@.headers[i].1 == request.headers@[i].1@
            },
{
}

/// A form is posted whole, to the whole address, under the one header that says what it is.
pub proof fn forms_are_posted_whole(token_url: Seq<char>, form: Seq<char>)
    ensures
        token_post(token_url, form).method == "POST"@,
        token_post(token_url, form).uri == token_url,
        token_post(token_url, form).body == form,
        token_post(token_url, form).headers == seq![
            ("Content-Type"@, "application/x-www-form-urlencoded"@),
        ],
{
}

/// A document of any length is posted whole to the responses endpoint of the backend, for the whole
/// account, and with the whole token, whatever slashes the address ends in and whatever white space
/// stands around the token.
pub proof fn documents_are_posted_whole(
    base: Seq<char>,
    cut: Seq<char>,
    lead: Seq<char>,
    token: Seq<char>,
    trail: Seq<char>,
    account_id: Seq<char>,
    json: Seq<char>,
)
    requires
        base.len() == 0 || base.last() != '/',
        all_slashes(cut),
        all_white_space(lead),
        all_white_space(trail),
        token.len() == 0 || (!is_white_space(token.first()) && !is_white_space(token.last())),
    ensures
        ({
            let request = codex_post(base + cut, lead + token + trail, account_id, json);
            &&& request.method == "POST"@
            &&& request.uri == base + "/responses"@
            &&& request.body == json
            &&& request.headers.len() == 5
            &&& request.headers[0] == ("Authorization"@, "Bearer "@ + token)
            &&& request.headers[1] == ("ChatGPT-Account-ID"@, account_id)
            &&& request.headers[2] == ("Accept"@, "text/event-stream"@)
            &&& request.headers[3] == ("Content-Type"@, "application/json"@)
            &&& request.headers[4] == ("originator"@, "zed"@)
        }),
{
    addresses_come_out_whole(base, cut);
    trimming_keeps_what_is_inside(lead, token, trail);
}

/// The request that is sent is made of the arguments as they are: its body is the document, its
/// account the account. So two documents, or two accounts, never give one request.
pub proof fn sent_documents_are_those_that_were_made(
    api_url: Seq<char>,
    access_token: Seq<char>,
    account_id: Seq<char>,
    json: Seq<char>,
    outcome: Result<HttpRequest, CodexError>,
    other_account: Seq<char>,
    other_json: Seq<char>,
)
    requires
        is_codex_request(api_url, access_token, account_id, json, outcome),
    ensures
        outcome is Ok ==> {
            &&& outcome->Ok_0.body@ == json
            &&& outcome->Ok_0.method@ == "POST"@
            &&& outcome->Ok_0.headers@.len() == 5
            &&& outcome->Ok_0.headers@[0].0@ == "Authorization"@
            &&& outcome->Ok_0.headers@[1].0@ == "ChatGPT-Account-ID"@
            &&& outcome->Ok_0.headers@[1].1@ == account_id
        },
        codex_post(api_url, access_token, account_id, json) == codex_post(
            api_url,
            access_token,
            other_account,
            other_json,
        ) ==> account_id == other_account && json == other_json,
{
    let made = codex_post(api_url, access_token, account_id, json);
    let other = codex_post(api_url, access_token, other_account, other_json);
    assert(made.headers[1].1 == account_id);
    assert(other.headers[1].1 == other_account);
    if outcome is Ok {
        let request = outcome->Ok_0;
        assert(request@.headers.len() == request.headers@.len());
        assert(request@.headers[0].0 == request.headers@[0].0@);
        assert(request@.headers[1].0 == request.headers@[1].0@);
        assert(request@.headers[1].1 == request.headers@[1].1@);
    }
}

/// The text holds one of the first thirty-two characters other than the tab, or the delete
/// character.
pub open spec fn has_control_character(text: Seq<char>) -> bool {
    exists|i: int|
        0 <= i < text.len() && ((#[trigger] text[i] as int) < 32 && text[i] != '\t' || text[i]
            == '\u{7f}')
}

/// A request is refused if and only if the token or the account holds a control character other
/// than the tab.
pub proof fn control_characters_stop_a_request(
    api_url: Seq<char>,
    access_token: Seq<char>,
    account_id: Seq<char>,
    json: Seq<char>,
    outcome: Result<HttpRequest, CodexError>,
)
    requires
        is_codex_request(api_url, access_token, account_id, json, outcome),
    ensures
        outcome is Err <==> has_control_character(account_id) || has_control_character(
            trimmed(access_token),
        ),
        outcome is Err ==> outcome->Err_0 is InvalidHeader,
{
    lemma_header_value(account_id);
    lemma_header_value(trimmed(access_token));
}

proof fn lemma_header_value(text: Seq<char>)
    ensures
        is_header_value(text) <==> !has_control_character(text),
{
    if !is_header_value(text) {
        let i = choose|i: int| 0 <= i < text.len() && !is_header_char(#[trigger] text[i]);
        assert((text[i] as int) < 32 && text[i] != '\t' || text[i] == '\u{7f}');
    }
    if has_control_character(text) {
        let i = choose|i: int|
            0 <= i < text.len() && ((#[trigger] text[i] as int) < 32 && text[i] != '\t'
                || text[i] == '\u{7f}');
        assert(!is_header_char(text[i]));
    }
}

/// The successes are the statuses of the two hundreds.
pub proof fn successes_are_the_two_hundreds(status: u16)
    ensures
        is_success(status) <==> status / 100 == 2,
{
}

/// The token endpoint's answer is handed on whole where it is a success, and is otherwise an error
/// that tells the whole status and the start of the body.
pub proof fn token_answers_are_handed_on_whole(
    status: u16,
    status_line: Seq<char>,
    body: Seq<char>,
    outcome: Result<String, CodexError>,
)
    requires
        is_token_reply(status, status_line, body, outcome),
    ensures
        outcome is Ok <==> status / 100 == 2,
        outcome is Ok ==> outcome->Ok_0@ == body,
        outcome is Err && body.len() <= 512 ==> outcome->Err_0.words()
            == "OpenAI OAuth token endpoint returned "@ + status_line + ": "@ + body,
        outcome is Err && body.len() > 512 ==> outcome->Err_0.words()
            == "OpenAI OAuth token endpoint returned "@ + status_line + ": "@ + body.take(512),
{
}

/// A refresh is refused if and only if the endpoint answers with 400 or 401 and its body holds
/// `invalid_grant`; every other answer is read as any answer of the endpoint.
pub proof fn refused_grants_are_told_apart(
    status: u16,
    status_line: Seq<char>,
    body: Seq<char>,
    outcome: Result<String, CodexError>,
)
    requires
        is_refresh_reply(status, status_line, body, outcome),
    ensures
        (outcome is Err && outcome->Err_0 is SignInExpired) <==> {
            &&& status == 400 || status == 401
            &&& exists|a: Seq<char>, b: Seq<char>| body == #[trigger] (a + "invalid_grant"@ + b)
        },
        !(outcome is Err && outcome->Err_0 is SignInExpired) ==> is_token_reply(
            status,
            status_line,
            body,
            outcome,
        ),
{
    needles_stand_between_texts(body, "invalid_grant"@);
}

/// Cloudflare refused a request if and only if the status is 403 and its name stands in the body,
/// in letters of any size.
pub proof fn cloudflare_is_found_in_letters_of_any_size(status: u16, body: Seq<char>)
    ensures
        is_cloudflare_refusal(status, body) <==> status == 403 && exists|at: int|
            0 <= at && at + 10 <= body.len() && #[trigger] spells_cloudflare(body, at),
{
    reveal_strlit("cloudflare");
    let lower = ascii_lowercase(body);
    let name = "cloudflare"@;
    assert(name.len() == 10);
    assert forall|at: int| 0 <= at && at + 10 <= body.len() implies (#[trigger] spells_cloudflare(
        body,
        at,
    ) <==> occurs_at(lower, name, at)) by {
        lemma_spelling(body, at);
    }
    if occurs_in(lower, name) {
        let at = choose|at: int| occurs_at(lower, name, at);
        assert(spells_cloudflare(body, at));
    }
    if exists|at: int|
        0 <= at && at + 10 <= body.len() && #[trigger] spells_cloudflare(body, at) {
        let at = choose|at: int|
            0 <= at && at + 10 <= body.len() && #[trigger] spells_cloudflare(body, at);
        assert(occurs_at(lower, name, at));
    }
}

/// The letters from this position on are those of the name, capital or small.
pub open spec fn spells_cloudflare(body: Seq<char>, at: int) -> bool {
    forall|k: int|
        0 <= k < 10 ==> #[trigger] body[at + k] == "cloudflare"@[k] || body[at + k]
            == "CLOUDFLARE"@[k]
}

proof fn lemma_spelling(body: Seq<char>, at: int)
    requires
        0 <= at,
        at + 10 <= body.len(),
    ensures
        spells_cloudflare(body, at) <==> occurs_at(
            ascii_lowercase(body),
            "cloudflare"@,
            at,
        ),
{
    reveal_strlit("cloudflare");
    reveal_strlit("CLOUDFLARE");
    let lower = ascii_lowercase(body);
    let name = "cloudflare"@;
    assert(name.len() == 10);
    assert forall|k: int| 0 <= k < 10 implies (lower[at + k] == name[k] <==> (#[trigger] body[at
        + k] == name[k] || body[at + k] == "CLOUDFLARE"@[k])) by {
        assert(lower[at + k] == crate::text::ascii_lower(body[at + k]));
    }
    let part = lower.subrange(at, at + 10);
    if spells_cloudflare(body, at) {
        assert forall|k: int| 0 <= k < 10 implies part[k] == name[k] by {
            assert(part[k] == lower[at + k]);
            assert(body[at + k] == name[k] || body[at + k] == "CLOUDFLARE"@[k]);
        }
        assert(part == name);
    }
    if occurs_at(lower, name, at) {
        assert forall|k: int| 0 <= k < 10 implies #[trigger] body[at + k] == name[k] || body[at + k]
            == "CLOUDFLARE"@[k] by {
            assert(part[k] == lower[at + k]);
        }
    }
}

/// An answer of the responses endpoint is streamed where it is a success; the first 401 asks for
/// another try; everything else is an error, which names Cloudflare or tells the whole status and
/// the start of the body.
pub proof fn answers_are_streamed_retried_or_told(
    status: u16,
    status_line: Seq<char>,
    body: Seq<char>,
    retried: bool,
    reply: CodexReply,
)
    requires
        is_codex_reply(status, status_line, body, retried, reply),
    ensures
        reply is Stream <==> status / 100 == 2,
        reply is RefreshAndRetry <==> status == 401 && !retried,
        reply is Failed && !is_cloudflare_refusal(status, body) && body.len() <= 512
            ==> reply->Failed_0.words() == "OpenAI Codex request failed with status "@
            + status_line + ": "@ + body,
        reply is Failed && !is_cloudflare_refusal(status, body) && body.len() > 512
            ==> reply->Failed_0.words() == "OpenAI Codex request failed with status "@
            + status_line + ": "@ + body.take(512),
        reply is Failed && is_cloudflare_refusal(status, body) ==> reply->Failed_0 is Cloudflare,
{
}

/// The words for an error repeat, whole, what the error was told.
pub proof fn errors_repeat_what_they_were_told(
    reason: String,
    status: String,
    excerpt: String,
    line: u64,
    column: u64,
)
    ensures
        CodexError::CallbackPort(reason).words()
            == "Sign in already in progress, or port 1455 is in use by another app. Quit other ChatGPT/Codex login flows and try again. ("@
            + reason@ + ")"@,
        CodexError::OAuth(reason).words() == "OpenAI OAuth error: "@ + reason@,
        (CodexError::InvalidCredentials { line, column }).words()
            == "invalid OpenAI Codex credentials: line "@ + decimal(line as nat) + " column "@
            + decimal(column as nat),
        (CodexError::InvalidTokenResponse { line, column }).words()
            == "invalid OpenAI OAuth token response: line "@ + decimal(line as nat) + " column "@
            + decimal(column as nat),
        CodexError::Service(reason).words() == reason@,
        CodexError::Transport(reason).words() == reason@,
        (CodexError::TokenEndpoint { status, excerpt }).words()
            == "OpenAI OAuth token endpoint returned "@ + status@ + ": "@ + excerpt@,
        (CodexError::RequestFailed { status, excerpt }).words()
            == "OpenAI Codex request failed with status "@ + status@ + ": "@ + excerpt@,
{
}

} // verus!
