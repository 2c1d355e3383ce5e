//! How the callback server reads requests and what it does.

use super::text::text_is_cut_at_the_first_mark;
use crate::callback::{
    is_callback_action, is_callback_outcome, is_request_action, last_value, query_of,
    CallbackAction, CallbackEvent, OAuthCallback, COMPLETE_PAGE, FAILED_PAGE,
};
use crate::encoding::{form_encoded, form_pairs, string_pairs};
use crate::error::CodexError;
use vstd::prelude::*;

verus! {

/// No pair has this name.
pub open spec fn lacks(pairs: Seq<(Seq<char>, Seq<char>)>, name: Seq<char>) -> bool {
    forall|i: int| 0 <= i < pairs.len() ==> (#[trigger] pairs[i]).0 != name
}

/// The value under a name is the whole value of the last pair with that name; there is none without
/// such a pair.
pub proof fn the_last_pair_counts(
    before: Seq<(Seq<char>, Seq<char>)>,
    name: Seq<char>,
    value: Seq<char>,
    after: Seq<(Seq<char>, Seq<char>)>,
)
    requires
        lacks(after, name),
    ensures
        last_value(before + seq![(name, value)] + after, name) == Some(value),
        last_value(after, name) is None,
    decreases after.len(),
{
    let pairs = before + seq![(name, value)] + after;
    if after.len() == 0 {
        assert(pairs.last() == (name, value));
    } else {
        let rest = after.drop_last();
        assert(forall|i: int| 0 <= i < rest.len() ==> #[trigger] rest[i] == after[i]);
        assert(after[after.len() - 1].0 != name);
        assert(pairs.last() == after.last());
        assert(pairs.drop_last() == before + seq![(name, value)] + rest);
        the_last_pair_counts(before, name, value, rest);
    }
}

/// A callback succeeds if and only if it brings a code and a state and no error. It then brings
/// these whole. Otherwise an error that it brings is told whole, then a missing code, then a missing
/// state.
pub proof fn callbacks_end_in_what_they_bring(
    pairs: Seq<(Seq<char>, Seq<char>)>,
    outcome: Result<OAuthCallback, CodexError>,
)
    requires
        is_callback_outcome(pairs, outcome),
    ensures
        ({
            let error = last_value(pairs, "error"@);
            let code = last_value(pairs, "code"@);
            let state = last_value(pairs, "state"@);
            &&& outcome is Ok <==> error is None && code is Some && state is Some
            &&& outcome is Ok ==> Some(outcome->Ok_0.code@) == code && Some(
                outcome->Ok_0.state@,
            ) == state
            &&& error is Some ==> outcome is Err && outcome->Err_0 is OAuth && Some(
                outcome->Err_0->OAuth_0@,
            ) == error
            &&& error is None && code is None ==> outcome is Err && outcome->Err_0 is MissingCode
            &&& error is None && code is Some && state is None ==> outcome is Err
                && outcome->Err_0 is MissingState
        }),
{
}

/// The query is all that stands behind the first question mark, and is empty without one.
pub proof fn the_query_stands_behind_the_first_mark(path: Seq<char>, query: Seq<char>)
    requires
        !path.contains('?'),
    ensures
        query_of(path + seq!['?'] + query) == query,
        query_of(path) == Seq::<char>::empty(),
{
    text_is_cut_at_the_first_mark(path, '?', query);
}

/// A request for a path that begins with `/cancel` calls off the sign-in, one that begins with
/// `/auth/callback` ends the wait with what its query brings, and any other is not found.
pub proof fn paths_decide_what_becomes_of_a_request(
    rest: Seq<char>,
    other: Seq<char>,
    action: CallbackAction,
)
    requires
        !"/cancel"@.is_prefix_of(other),
        !"/auth/callback"@.is_prefix_of(other),
    ensures
        is_request_action("/cancel"@ + rest, action) ==> {
            &&& action is AnswerAndEnd
            &&& action->AnswerAndEnd_0.status == 200
            &&& action->AnswerAndEnd_0.body@ == "Cancelled"@
            &&& action->AnswerAndEnd_1 is Err
            &&& action->AnswerAndEnd_1->Err_0 is Cancelled
        },
        is_request_action(other, action) ==> {
            &&& action is Answer
            &&& action->Answer_0.status == 404
            &&& action->Answer_0.body@ == "Not found"@
        },
        is_request_action("/auth/callback"@ + rest, action) ==> {
            &&& action is AnswerAndEnd
            &&& action->AnswerAndEnd_1 is Ok ==> action->AnswerAndEnd_0.status == 200
                && action->AnswerAndEnd_0.body@ == COMPLETE_PAGE@
            &&& action->AnswerAndEnd_1 is Err ==> action->AnswerAndEnd_0.status == 400
                && action->AnswerAndEnd_0.body@ == FAILED_PAGE@
        },
{
    reveal_strlit("/cancel");
    reveal_strlit("/auth/callback");
    let cancel = "/cancel"@ + rest;
    let callback = "/auth/callback"@ + rest;
    assert("/cancel"@.len() == 7 && "/auth/callback"@.len() == 14);
    assert(cancel.take(7) == "/cancel"@);
    assert(callback.take(14) == "/auth/callback"@);
    assert(callback[1] == "/auth/callback"@[1]);
    if "/cancel"@.is_prefix_of(callback) {
        assert(callback.take(7)[1] == "/cancel"@[1]);
    }
}

/// A callback whose query is the encoding of some pairs, in whatever number and order, ends in what
/// these pairs bring.
pub proof fn encoded_pairs_are_read(
    pairs: Seq<(Seq<char>, Seq<char>)>,
    action: CallbackAction,
)
    requires
        is_request_action("/auth/callback?"@ + form_encoded(pairs), action),
    ensures
        action is AnswerAndEnd,
        is_callback_outcome(pairs, action->AnswerAndEnd_1),
{
    reveal_strlit("/cancel");
    reveal_strlit("/auth/callback");
    reveal_strlit("/auth/callback?");
    let path = "/auth/callback"@;
    let query = form_encoded(pairs);
    let url = "/auth/callback?"@ + query;
    assert(path.len() == 14 && "/auth/callback?"@.len() == 15 && "/cancel"@.len() == 7);
    assert("/auth/callback?"@ == path + seq!['?']);
    if path.contains('?') {
        let i = path.index_of('?');
        assert(path[i] != '?');
    }
    the_query_stands_behind_the_first_mark(path, query);
    assert(url == path + seq!['?'] + query);
    assert(url.take(14) == path);
    if "/cancel"@.is_prefix_of(url) {
        assert(url.take(7)[1] == "/cancel"@[1]);
        assert(url[1] == path[1]);
    }
}

/// Pairs of text are read in their order, each with its whole name and its whole value.
pub proof fn pairs_are_read_whole(pairs: Seq<(String, String)>, i: int)
    requires
        0 <= i < pairs.len(),
    ensures
        string_pairs(pairs).len() == pairs.len(),
        string_pairs(pairs)[i].0 == pairs[i].0@,
        string_pairs(pairs)[i].1 == pairs[i].1@,
{
}

/// A callback with any query at all ends in what the pairs of that query bring.
pub proof fn every_query_is_read(rest: Seq<char>, query: Seq<char>, action: CallbackAction)
    requires
        !rest.contains('?'),
        is_request_action("/auth/callback"@ + rest + seq!['?'] + query, action),
    ensures
        action is AnswerAndEnd,
        is_callback_outcome(form_pairs(query), action->AnswerAndEnd_1),
{
    reveal_strlit("/auth/callback");
    let path = "/auth/callback"@ + rest;
    if path.contains('?') {
        let i = path.index_of('?');
        if i < 14 {
            assert(path[i] == "/auth/callback"@[i]);
        } else {
            assert(rest[i - 14] == '?');
        }
    }
    the_query_stands_behind_the_first_mark(path, query);
    let tail = rest + seq!['?'] + query;
    assert(path + seq!['?'] + query == "/auth/callback"@ + tail);
    lemma_callback_path(tail, action);
}

/// A request for a path that begins with `/auth/callback` ends in what its query brings.
proof fn lemma_callback_path(tail: Seq<char>, action: CallbackAction)
    requires
        is_request_action("/auth/callback"@ + tail, action),
    ensures
        action is AnswerAndEnd,
        is_callback_outcome(
            form_pairs(query_of("/auth/callback"@ + tail)),
            action->AnswerAndEnd_1,
        ),
{
    reveal_strlit("/cancel");
    reveal_strlit("/auth/callback");
    let url = "/auth/callback"@ + tail;
    assert("/auth/callback"@.len() == 14 && "/cancel"@.len() == 7);
    assert(url.take(14) == "/auth/callback"@);
    assert(url[1] == "/auth/callback"@[1]);
    if "/cancel"@.is_prefix_of(url) {
        assert(url.take(7)[1] == "/cancel"@[1]);
    }
}

/// The wait goes on until the clock shows more than five minutes: each look at the clock is followed
/// by a wait for a request or by the end, and each idle wait by a look at the clock.
pub proof fn the_wait_lasts_five_minutes(
    nanos: u128,
    looked: CallbackAction,
    ready: CallbackAction,
    idle: CallbackAction,
)
    requires
        is_callback_action(CallbackEvent::Elapsed(nanos), looked),
        is_callback_action(CallbackEvent::Ready, ready),
        is_callback_action(CallbackEvent::Idle, idle),
    ensures
        looked is Poll <==> nanos <= 300_000_000_000,
        looked is End <==> nanos > 300_000_000_000,
        looked is End ==> looked->End_0 is CallbackTimeout,
        ready is CheckClock,
        idle is CheckClock,
{
}

/// A failure is told whole: that of a wait at once, that of a start by the words for a held port.
pub proof fn server_failures_are_told_whole(
    reason: String,
    waited: CallbackAction,
    attempt: u32,
    started: CallbackAction,
    abandoned: CallbackAction,
)
    requires
        is_callback_action(CallbackEvent::Failed(reason), waited),
        is_callback_action(
            (CallbackEvent::BindFailed { in_use: false, attempt, reason }),
            started,
        ),
        is_callback_action(CallbackEvent::Abandoned, abandoned),
    ensures
        waited is End && waited->End_0 is Service && waited->End_0->Service_0@ == reason@,
        started is End && started->End_0 is CallbackPort && started->End_0->CallbackPort_0@
            == reason@,
        abandoned is End && abandoned->End_0 is Cancelled,
{
}

/// A held port is tried ten times, two hundred milliseconds apart, the second time after one request
/// that calls off an earlier sign-in.
pub proof fn a_held_port_is_tried_ten_times(
    attempt: u32,
    reason: String,
    start: CallbackAction,
    failed: CallbackAction,
    cancelled: CallbackAction,
)
    requires
        is_callback_action(CallbackEvent::Start, start),
        is_callback_action((CallbackEvent::BindFailed { in_use: true, attempt, reason }), failed),
        is_callback_action(CallbackEvent::CancelSent, cancelled),
    ensures
        start == (CallbackAction::Bind { delay_millis: 0, attempt: 1 }),
        cancelled == (CallbackAction::Bind { delay_millis: 200, attempt: 2 }),
        attempt == 1 ==> failed is SendCancel && failed->SendCancel_0@
            == "http://127.0.0.1:1455/cancel"@,
        2 <= attempt < 10 ==> failed == (CallbackAction::Bind {
            delay_millis: 200,
            attempt: (attempt + 1) as u32,
        }),
        attempt >= 10 ==> failed is End && failed->End_0 is CallbackPort
            && failed->End_0->CallbackPort_0@ == reason@,
{
}

} // verus!
