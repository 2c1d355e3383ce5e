//! The server on this machine to which the browser comes back after the sign-in.

use crate::encoding::{form_decode, form_encoded, form_pairs, string_pairs};
use crate::error::CodexError;
use crate::text::{after_first, same_text, split_after, starts_with};
use vstd::prelude::*;

verus! {

/// Where the server listens.
pub const CALLBACK_ADDRESS: &'static str = "127.0.0.1:1455";

/// How long the server waits for the browser, in nanoseconds.
pub const CALLBACK_LIMIT_NANOS: u128 = 300_000_000_000;

/// How long one wait for a request lasts, in milliseconds.
pub const POLL_MILLIS: u64 = 200;

/// How often the server tries to start while another program holds its port.
pub const MAX_BIND_ATTEMPTS: u32 = 10;

/// How long the server waits before it tries to start again, in milliseconds.
pub const BIND_RETRY_MILLIS: u64 = 200;

/// The request that calls off an earlier sign-in, whose server still holds the port.
pub const CANCEL_URL: &'static str = "http://127.0.0.1:1455/cancel";

/// What the browser shows once the sign-in has failed.
pub const FAILED_PAGE: &'static str =
    "<html><body><h1>OpenAI Codex sign-in failed</h1><p>You can close this tab and try again.</p></body></html>";

/// What the browser shows once the sign-in is complete.
pub const COMPLETE_PAGE: &'static str =
    "<html><body><h1>OpenAI Codex sign-in complete</h1><p>You can close this tab.</p></body></html>";

/// What the authorization server hands to the browser: the code for the tokens, and the state
/// that was sent out.
pub struct OAuthCallback {
    pub code: String,
    pub state: String,
}

/// An answer to the browser.
#[derive(Debug)]
pub struct CallbackReply {
    pub status: u16,
    pub body: &'static str,
}

/// What happens to the server.
pub enum CallbackEvent {
    /// A sign-in begins: the server is to start.
    Start,
    /// The server could not start at this attempt, counted from one; the text says why.
    BindFailed { in_use: bool, attempt: u32, reason: String },
    /// The request that calls off an earlier sign-in was sent, whatever came of it.
    CancelSent,
    /// Nobody waits for the sign-in any more.
    Abandoned,
    /// The server runs, or has answered a stray request.
    Ready,
    /// The clock shows that so many nanoseconds have passed since the start.
    Elapsed(u128),
    /// No request came during a wait.
    Idle,
    /// A wait failed; the text says why.
    Failed(String),
    /// A request for this path and query came.
    Request(String),
}

/// What the server does next.
pub enum CallbackAction {
    /// Wait so many milliseconds, and try to start; this is the attempt with this number.
    Bind { delay_millis: u64, attempt: u32 },
    /// Call off an earlier sign-in by a request for this address.
    SendCancel(&'static str),
    /// Look at the clock.
    CheckClock,
    /// Wait for a request.
    Poll,
    /// Answer the request, and go on.
    Answer(CallbackReply),
    /// Answer the request, and end.
    AnswerAndEnd(CallbackReply, Result<OAuthCallback, CodexError>),
    /// End, without an answer.
    End(CodexError),
}

/// The value of the last pair with this name.
pub open spec fn last_value(pairs: Seq<(Seq<char>, Seq<char>)>, name: Seq<char>) -> Option<
    Seq<char>,
>
    decreases pairs.len(),
{
    if pairs.len() == 0 {
        None
    } else if pairs.last().0 == name {
        Some(pairs.last().1)
    } else {
        last_value(pairs.drop_last(), name)
    }
}

/// The callback that the pairs of a query hold, or the error that they end in.
pub open spec fn is_callback_outcome(
    pairs: Seq<(Seq<char>, Seq<char>)>,
    outcome: Result<OAuthCallback, CodexError>,
) -> bool {
    match last_value(pairs, "error"@) {
        Some(reason) => {
            &&& outcome is Err
            &&& outcome->Err_0 is OAuth
            &&& outcome->Err_0->OAuth_0@ == reason
        },
        None => match (last_value(pairs, "code"@), last_value(pairs, "state"@)) {
            (None, _) => outcome is Err && outcome->Err_0 is MissingCode,
            (Some(_), None) => outcome is Err && outcome->Err_0 is MissingState,
            (Some(code), Some(state)) => {
                &&& outcome is Ok
                &&& outcome->Ok_0.code@ == code
                &&& outcome->Ok_0.state@ == state
            },
        },
    }
}

/// The query of a path: what stands behind the first question mark.
pub open spec fn query_of(url: Seq<char>) -> Seq<char> {
    match after_first(url, '?') {
        Some(query) => query,
        None => Seq::empty(),
    }
}

/// What a callback with this query ends in. Where the query is the encoding of some pairs, these
/// decide.
pub open spec fn is_query_outcome(
    query: Seq<char>,
    outcome: Result<OAuthCallback, CodexError>,
) -> bool {
    &&& is_callback_outcome(form_pairs(query), outcome)
    &&& forall|pairs: Seq<(Seq<char>, Seq<char>)>|
        query == #[trigger] form_encoded(pairs) ==> is_callback_outcome(pairs, outcome)
}

/// The action that answers a request for this path.
pub open spec fn is_request_action(url: Seq<char>, action: CallbackAction) -> bool {
    if "/cancel"@.is_prefix_of(url) {
        &&& action matches CallbackAction::AnswerAndEnd(reply, outcome)
        &&& reply.status == 200
        &&& reply.body@ == "Cancelled"@
        &&& outcome is Err
        &&& outcome->Err_0 is Cancelled
    } else if !"/auth/callback"@.is_prefix_of(url) {
        &&& action matches CallbackAction::Answer(reply)
        &&& reply.status == 404
        &&& reply.body@ == "Not found"@
    } else {
        match action {
            CallbackAction::AnswerAndEnd(reply, outcome) => {
                &&& is_query_outcome(query_of(url), outcome)
                &&& outcome is Ok ==> reply.status == 200 && reply.body@ == COMPLETE_PAGE@
                &&& outcome is Err ==> reply.status == 400 && reply.body@ == FAILED_PAGE@
            },
            _ => false,
        }
    }
}

/// Gives the value of the last pair with this name.
fn value_of<'a>(pairs: &'a Vec<(String, String)>, name: &str) -> (r: Option<&'a String>)
    ensures
        match r {
            Some(value) => last_value(string_pairs(pairs@), name@) == Some(value@),
            None => last_value(string_pairs(pairs@), name@) is None,
        },
{
    let ghost texts = string_pairs(pairs@);
    let mut left: usize = pairs.len();
    assert(texts.take(left as int) == texts);
    while left > 0
        invariant
            left <= pairs@.len(),
            texts == string_pairs(pairs@),
            last_value(texts, name@) == last_value(texts.take(left as int), name@),
        decreases left,
    {
        assert(texts.take(left as int).drop_last() == texts.take(left - 1));
        assert(texts.take(left as int).last() == texts[left - 1]);
        if same_text(pairs[left - 1].0.as_str(), name) {
            return Some(&pairs[left - 1].1);
        }
        left = left - 1;
    }
    None
}

/// Reads the callback out of the pairs of a query. An error that the authorization server reports
/// counts first, then a missing code, then a missing state.
pub fn callback_from_pairs(pairs: &Vec<(String, String)>) -> (r: Result<OAuthCallback, CodexError>)
    ensures
        is_callback_outcome(string_pairs(pairs@), r),
{
    if let Some(reason) = value_of(pairs, "error") {
        return Err(CodexError::OAuth(reason.clone()));
    }
    let code = match value_of(pairs, "code") {
        Some(code) => code.clone(),
        None => {
            return Err(CodexError::MissingCode);
        },
    };
    let state = match value_of(pairs, "state") {
        Some(state) => state.clone(),
        None => {
            return Err(CodexError::MissingState);
        },
    };
    Ok(OAuthCallback { code, state })
}

/// Reads the callback out of a query.
pub fn callback_from_query(query: &str) -> (r: Result<OAuthCallback, CodexError>)
    ensures
        is_query_outcome(query@, r),
{
    match form_decode(query) {
        Ok(pairs) => callback_from_pairs(&pairs),
        Err(message) => Err(CodexError::Service(message)),
    }
}

/// Decides what becomes of a request for this path and query.
pub fn answer_request(url: &str) -> (r: CallbackAction)
    ensures
        is_request_action(url@, r),
{
    if starts_with(url, "/cancel") {
        return CallbackAction::AnswerAndEnd(
            CallbackReply { status: 200, body: "Cancelled" },
            Err(CodexError::Cancelled),
        );
    }
    if !starts_with(url, "/auth/callback") {
        return CallbackAction::Answer(CallbackReply { status: 404, body: "Not found" });
    }
    let outcome = match split_after(url, '?') {
        Some(query) => callback_from_query(query),
        None => {
            proof {
                reveal_strlit("");
            }
            assert(""@ == query_of(url@));
            callback_from_query("")
        },
    };
    match outcome {
        Ok(callback) => CallbackAction::AnswerAndEnd(
            CallbackReply { status: 200, body: COMPLETE_PAGE },
            Ok(callback),
        ),
        Err(error) => CallbackAction::AnswerAndEnd(
            CallbackReply { status: 400, body: FAILED_PAGE },
            Err(error),
        ),
    }
}

/// The action after a failed attempt to start. While another program holds the port, the first
/// failure calls off an earlier sign-in, every further one but the last is followed by another
/// attempt, and the last one ends the sign-in. Any other failure ends it at once.
pub open spec fn is_bind_action(
    in_use: bool,
    attempt: u32,
    reason: Seq<char>,
    action: CallbackAction,
) -> bool {
    if in_use && attempt <= 1 {
        action matches CallbackAction::SendCancel(url) && url@ == CANCEL_URL@
    } else if in_use && attempt < MAX_BIND_ATTEMPTS {
        &&& action matches CallbackAction::Bind { delay_millis, attempt: next }
        &&& delay_millis == BIND_RETRY_MILLIS
        &&& next == attempt + 1
    } else {
        &&& action matches CallbackAction::End(error)
        &&& error is CallbackPort
        &&& error->CallbackPort_0@ == reason
    }
}

/// What the server does after an event.
pub open spec fn is_callback_action(event: CallbackEvent, action: CallbackAction) -> bool {
    match event {
        CallbackEvent::Start => {
            &&& action matches CallbackAction::Bind { delay_millis, attempt }
            &&& delay_millis == 0
            &&& attempt == 1
        },
        CallbackEvent::BindFailed { in_use, attempt, reason } => is_bind_action(
            in_use,
            attempt,
            reason@,
            action,
        ),
        CallbackEvent::CancelSent => {
            &&& action matches CallbackAction::Bind { delay_millis, attempt }
            &&& delay_millis == BIND_RETRY_MILLIS
            &&& attempt == 2
        },
        CallbackEvent::Abandoned => action matches CallbackAction::End(error) && error is Cancelled,
        CallbackEvent::Ready => action is CheckClock,
        CallbackEvent::Elapsed(nanos) => if nanos > CALLBACK_LIMIT_NANOS {
            action matches CallbackAction::End(error) && error is CallbackTimeout
        } else {
            action is Poll
        },
        CallbackEvent::Idle => action is CheckClock,
        CallbackEvent::Failed(reason) => {
            &&& action matches CallbackAction::End(error)
            &&& error is Service
            &&& error->Service_0@ == reason@
        },
        CallbackEvent::Request(url) => is_request_action(url@, action),
    }
}

/// Decides what the server does after an event. It ends with the first request that finishes or
/// calls off the sign-in, and with the first look at the clock that finds the time over.
pub fn wait_for_callback(event: &CallbackEvent) -> (r: CallbackAction)
    ensures
        is_callback_action(*event, r),
{
    match event {
        CallbackEvent::Start => CallbackAction::Bind { delay_millis: 0, attempt: 1 },
        CallbackEvent::BindFailed { in_use, attempt, reason } => if *in_use && *attempt <= 1 {
            CallbackAction::SendCancel(CANCEL_URL)
        } else if *in_use && *attempt < MAX_BIND_ATTEMPTS {
            CallbackAction::Bind { delay_millis: BIND_RETRY_MILLIS, attempt: *attempt + 1 }
        } else {
            CallbackAction::End(CodexError::CallbackPort(reason.clone()))
        },
        CallbackEvent::CancelSent => CallbackAction::Bind {
            delay_millis: BIND_RETRY_MILLIS,
            attempt: 2,
        },
        CallbackEvent::Abandoned => CallbackAction::End(CodexError::Cancelled),
        CallbackEvent::Ready => CallbackAction::CheckClock,
        CallbackEvent::Elapsed(nanos) => if *nanos > CALLBACK_LIMIT_NANOS {
            CallbackAction::End(CodexError::CallbackTimeout)
        } else {
            CallbackAction::Poll
        },
        CallbackEvent::Idle => CallbackAction::CheckClock,
        CallbackEvent::Failed(reason) => CallbackAction::End(CodexError::Service(reason.clone())),
        CallbackEvent::Request(url) => answer_request(url.as_str()),
    }
}

} // verus!
