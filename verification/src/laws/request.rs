//! What becomes of a conversation, and what requests and offers hold.

use crate::error::CodexError;
use crate::provider::{
    effective_url, is_authorization, is_completion_error, is_dispatch, is_offer_of, model_views,
    Authorization, CodexModel, CompletionError, Dispatch, OpenAiCodexLanguageModel,
};
use crate::request::{
    is_codex_response, joined, system_text, without_system, LanguageModelRequest, Message,
    ResponseRequest, Role,
};
use crate::state::StateView;
use vstd::prelude::*;

verus! {

/// The input of a conversation in two parts is the input of the one and then that of the other; of
/// one message it is the message itself, or nothing where the system speaks. So the input holds
/// every other message, whole, once, and in its place.
pub proof fn inputs_are_made_message_by_message<Content>(
    a: Seq<Message<Content>>,
    b: Seq<Message<Content>>,
    message: Message<Content>,
)
    ensures
        without_system(a + b) == without_system(a) + without_system(b),
        without_system(seq![message]) == if message.role == Role::System {
            Seq::empty()
        } else {
            seq![message]
        },
        without_system(Seq::<Message<Content>>::empty()) == Seq::<Message<Content>>::empty(),
    decreases b.len(),
{
    let none = Seq::<Message<Content>>::empty();
    assert(seq![message].drop_last() == none);
    assert(without_system(none) == none);
    assert(none.push(message) == seq![message]);
    if b.len() == 0 {
        assert(a + b == a);
        assert(without_system(b) == none);
        assert(without_system(a) + none == without_system(a));
    } else {
        let rest = b.drop_last();
        inputs_are_made_message_by_message(a, rest, message);
        assert((a + b).drop_last() == a + rest);
        assert((a + b).last() == b.last());
        assert(without_system(a) + without_system(rest).push(b.last()) == (without_system(a)
            + without_system(rest)).push(b.last()));
    }
}

proof fn lemma_joins_in_a_row(x: Seq<char>, y: Seq<char>, z: Seq<char>)
    ensures
        joined(joined(x, y), z) == joined(x, joined(y, z)),
{
    reveal_strlit("\n\n");
    let gap = "\n\n"@;
    if x.len() > 0 && y.len() > 0 && z.len() > 0 {
        assert((x + gap + y) + gap + z == x + gap + (y + gap + z));
    }
}

/// The instructions of a conversation in two parts are those of the one and then those of the other,
/// with an empty line between them where both say something; those of one message are its whole
/// text where the system speaks, and nothing otherwise.
pub proof fn instructions_are_made_message_by_message<Content>(
    a: Seq<Message<Content>>,
    b: Seq<Message<Content>>,
    message: Message<Content>,
)
    ensures
        system_text(a).len() > 0 && system_text(b).len() > 0 ==> system_text(a + b) == system_text(
            a,
        ) + "\n\n"@ + system_text(b),
        system_text(a).len() == 0 ==> system_text(a + b) == system_text(b),
        system_text(b).len() == 0 ==> system_text(a + b) == system_text(a),
        system_text(seq![message]) == if message.role == Role::System {
            message.text@
        } else {
            Seq::empty()
        },
{
    lemma_texts_join(a, b);
    let none = Seq::<Message<Content>>::empty();
    assert(seq![message].drop_last() == none);
    assert(system_text(none) == Seq::<char>::empty());
    if system_text(a).len() == 0 && system_text(b).len() == 0 {
        assert(system_text(a) == system_text(b));
    }
}

proof fn lemma_texts_join<Content>(a: Seq<Message<Content>>, b: Seq<Message<Content>>)
    ensures
        system_text(a + b) == joined(system_text(a), system_text(b)),
    decreases b.len(),
{
    if b.len() == 0 {
        assert(a + b == a);
        assert(system_text(b).len() == 0);
        if system_text(a).len() == 0 {
            assert(system_text(a) == system_text(b));
        }
    } else {
        let rest = b.drop_last();
        lemma_texts_join(a, rest);
        assert((a + b).drop_last() == a + rest);
        assert((a + b).last() == b.last());
        if b.last().role is System {
            lemma_joins_in_a_row(system_text(a), system_text(rest), b.last().text@);
        }
    }
}

/// A request holds the instructions and the input of its conversation, and everything else of it as
/// it is; it is streamed, not stored, without a limit on its output, and for the named model.
pub proof fn requests_hold_their_conversation<Content, Tool, Rest>(
    request: LanguageModelRequest<Content, Tool, Rest>,
    model_id: Seq<char>,
    supports_thinking: bool,
    response: ResponseRequest<Content, Tool, Rest>,
)
    requires
        is_codex_response(request, model_id, supports_thinking, response),
    ensures
        response.model@ == model_id,
        response.instructions is Some,
        system_text(request.messages@).len() > 0 ==> response.instructions->Some_0@ == system_text(
            request.messages@,
        ),
        system_text(request.messages@).len() == 0 ==> response.instructions->Some_0@
            == "You are an AI coding assistant."@,
        response.input@ == without_system(request.messages@),
        response.tools@ == request.tools@,
        response.tool_choice == request.tool_choice,
        response.parallel_tool_calls is Some <==> request.tools@.len() > 0,
        response.parallel_tool_calls is Some ==> response.parallel_tool_calls == Some(true),
        response.reasoning_effort is Some <==> supports_thinking,
        response.stream,
        response.store == Some(false),
        response.max_output_tokens is None,
        response.prompt_cache_key == request.thread_id,
        response.rest == request.rest,
{
}

/// A request is authorized if and only if there are credentials that tell the account. It is then
/// authorized by the whole access token and the whole account; otherwise the user is told to sign
/// in, in the words for what is missing.
pub proof fn credentials_authorize_requests(
    state: StateView,
    outcome: Result<Authorization, CompletionError>,
)
    requires
        is_authorization(state, outcome),
    ensures
        outcome is Ok <==> state.credentials is Some && state.credentials->Some_0.account_id is Some,
        outcome is Ok ==> {
            &&& outcome->Ok_0.access_token@ == state.credentials->Some_0.access_token
            &&& Some(outcome->Ok_0.account_id@) == state.credentials->Some_0.account_id
        },
        outcome is Err ==> {
            &&& outcome->Err_0 is Authentication
            &&& outcome->Err_0->provider@ == "OpenAI Codex"@
        },
        state.credentials is None ==> outcome->Err_0->message@
            == "Sign in with ChatGPT to use OpenAI Codex"@,
        state.credentials is Some && outcome is Err ==> outcome->Err_0->message@
            == "ChatGPT account ID could not be determined; please sign out and sign in again."@,
{
}

/// A request is sent at once if and only if it is authorized and its token has at least sixty seconds
/// left; with less, a refresh comes first, or the one that is under way.
pub proof fn requests_start_with_what_time_allows(
    before: StateView,
    after: StateView,
    auth_url: Seq<char>,
    now_ms: u64,
    outcome: Result<Dispatch, CompletionError>,
)
    requires
        is_dispatch(before, after, auth_url, now_ms, outcome),
    ensures
        ({
            let stale = before.credentials is Some && before.credentials->Some_0.expires_at_ms
                < now_ms + 60_000;
            &&& (outcome matches Ok(Dispatch::RefreshFirst(_))) <==> stale && !before.refreshing
            &&& (outcome matches Ok(Dispatch::AwaitRefresh)) <==> stale && before.refreshing
            &&& (outcome matches Ok(Dispatch::Send(_))) <==> !stale && before.credentials is Some
                && before.credentials->Some_0.account_id is Some
            &&& outcome matches Ok(Dispatch::Send(authorization)) ==> {
                &&& authorization.access_token@ == before.credentials->Some_0.access_token
                &&& Some(authorization.account_id@) == before.credentials->Some_0.account_id
            }
            &&& outcome matches Ok(Dispatch::RefreshFirst(refresh)) ==> refresh.previous@
                == before.credentials->Some_0
            &&& outcome is Err ==> outcome->Err_0 is Authentication
            &&& after.credentials == before.credentials
            &&& after.credentials_loaded == before.credentials_loaded
            &&& after.auth_url == before.auth_url
            &&& after.error == before.error
            &&& after.refreshing == (before.refreshing || stale)
        }),
{
}

/// The errors that a sign-in mends are told as such, in their own words; every other error is handed
/// on as it is.
pub proof fn errors_of_completions_keep_their_words(error: CodexError, told: CompletionError)
    requires
        is_completion_error(error, told),
    ensures
        told is Authentication <==> (error is SignInRequired || error is AccountUnknown
            || error is SignInExpired),
        told is Authentication ==> told->message@ == error.words() && told->provider@
            == "OpenAI Codex"@,
        told is Other ==> told->Other_0 == error,
{
}

/// An address from the settings counts as it is, and the usual one where there is none.
pub proof fn settings_count_as_they_are(setting: Seq<char>, usual: Seq<char>)
    ensures
        setting != Seq::<char>::empty() ==> effective_url(setting, usual) == setting,
        effective_url(Seq::<char>::empty(), usual) == usual,
{
    if setting.len() == 0 {
        assert(setting == Seq::<char>::empty());
    }
}

/// A list of models shows each of them in its place, and a model each field of it.
pub proof fn lists_show_every_model(models: Seq<CodexModel>, i: int)
    requires
        0 <= i < models.len(),
    ensures
        model_views(models).len() == models.len(),
        model_views(models)[i].id == models[i].id@,
        model_views(models)[i].display_name == models[i].display_name@,
        model_views(models)[i].max_tokens == models[i].max_tokens,
        model_views(models)[i].max_output == models[i].max_output,
        model_views(models)[i].supports_thinking == models[i].supports_thinking,
{
}

/// An offer is that of its model, in every field, under the model's whole name.
pub proof fn offers_are_of_their_model(offer: OpenAiCodexLanguageModel, model: CodexModel)
    requires
        is_offer_of(offer, model@),
    ensures
        offer.id@ == model.id@,
        offer.model.id@ == model.id@,
        offer.model.display_name@ == model.display_name@,
        offer.model.max_tokens == model.max_tokens,
        offer.model.max_output == model.max_output,
        offer.model.supports_thinking == model.supports_thinking,
        offer.request_limit == 4,
{
    assert(offer.model@.id == model@.id);
}

} // verus!
