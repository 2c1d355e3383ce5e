//! The documents that are sent to the Codex backend.

use crate::provider::LanguageModelToolChoice;
use vstd::prelude::*;

verus! {

/// What the backend is told to be where the conversation does not say.
pub const INSTRUCTIONS: &'static str = "You are an AI coding assistant.";

/// What stands between the texts of two system messages.
pub const INSTRUCTIONS_GAP: &'static str = "\n\n";

/// How hard a model thinks.
#[derive(Clone, Copy, PartialEq, Eq, Structural, Debug)]
pub enum ReasoningEffort {
    Medium,
}

/// Who speaks.
#[derive(Clone, Copy, PartialEq, Eq, Structural, Debug)]
pub enum Role {
    System,
    User,
    Assistant,
}

/// One message of a conversation.
pub struct Message<Content> {
    pub role: Role,
    /// The text of the message.
    pub text: String,
    /// The message in the form in which it is sent.
    pub content: Content,
}

/// A conversation that a model is to go on with.
pub struct LanguageModelRequest<Content, Tool, Rest> {
    pub messages: Vec<Message<Content>>,
    pub tools: Vec<Tool>,
    pub tool_choice: Option<LanguageModelToolChoice>,
    pub thread_id: Option<String>,
    /// Whatever else goes out as it is.
    pub rest: Rest,
}

/// A request for a response.
pub struct ResponseRequest<Content, Tool, Rest> {
    pub model: String,
    pub instructions: Option<String>,
    pub input: Vec<Message<Content>>,
    pub tools: Vec<Tool>,
    pub tool_choice: Option<LanguageModelToolChoice>,
    /// Whether tools may run side by side; nothing where there are none.
    pub parallel_tool_calls: Option<bool>,
    pub reasoning_effort: Option<ReasoningEffort>,
    pub stream: bool,
    pub store: Option<bool>,
    pub max_output_tokens: Option<u64>,
    pub prompt_cache_key: Option<String>,
    pub rest: Rest,
}

/// The messages but those of the system, in their order.
pub open spec fn without_system<Content>(messages: Seq<Message<Content>>) -> Seq<Message<Content>>
    decreases messages.len(),
{
    if messages.len() == 0 {
        Seq::empty()
    } else if messages.last().role is System {
        without_system(messages.drop_last())
    } else {
        without_system(messages.drop_last()).push(messages.last())
    }
}

/// The text, and behind it another one: with a gap between them where neither is empty.
pub open spec fn joined(text: Seq<char>, more: Seq<char>) -> Seq<char> {
    if text.len() == 0 {
        more
    } else if more.len() == 0 {
        text
    } else {
        text + INSTRUCTIONS_GAP@ + more
    }
}

/// The texts of the system messages, in their order.
pub open spec fn system_text<Content>(messages: Seq<Message<Content>>) -> Seq<char>
    decreases messages.len(),
{
    if messages.len() == 0 {
        Seq::empty()
    } else if messages.last().role is System {
        joined(system_text(messages.drop_last()), messages.last().text@)
    } else {
        system_text(messages.drop_last())
    }
}

/// The instructions of a conversation: what its system messages say, or the usual ones where they
/// say nothing.
pub open spec fn instructions_of<Content>(messages: Seq<Message<Content>>) -> Seq<char> {
    if system_text(messages).len() == 0 {
        INSTRUCTIONS@
    } else {
        system_text(messages)
    }
}

/// The request that a conversation becomes: the system messages are its instructions and no part of
/// its input, it is streamed, it is not stored, it sets no limit on the output, tools may run side
/// by side, and a model that thinks does so with medium effort. Everything else stays as it is.
pub open spec fn is_codex_response<Content, Tool, Rest>(
    request: LanguageModelRequest<Content, Tool, Rest>,
    model_id: Seq<char>,
    supports_thinking: bool,
    response: ResponseRequest<Content, Tool, Rest>,
) -> bool {
    &&& response.model@ == model_id
    &&& response.instructions is Some
    &&& response.instructions->Some_0@ == instructions_of(request.messages@)
    &&& response.input@ == without_system(request.messages@)
    &&& response.tools == request.tools
    &&& response.tool_choice == request.tool_choice
    &&& response.parallel_tool_calls == if request.tools@.len() == 0 {
        None
    } else {
        Some(true)
    }
    &&& response.reasoning_effort == if supports_thinking {
        Some(ReasoningEffort::Medium)
    } else {
        None
    }
    &&& response.stream
    &&& response.store == Some(false)
    &&& response.max_output_tokens is None
    &&& response.prompt_cache_key == request.thread_id
    &&& response.rest == request.rest
}

/// Joins two texts.
fn join(text: String, more: &str) -> (r: String)
    ensures
        r@ == joined(text@, more@),
{
    if text.as_str().is_empty() {
        more.to_owned()
    } else if more.is_empty() {
        text
    } else {
        text.concat(INSTRUCTIONS_GAP).concat(more)
    }
}

/// Makes a conversation a request that is fit for the Codex backend.
pub fn into_codex_response<Content, Tool, Rest>(
    request: LanguageModelRequest<Content, Tool, Rest>,
    model_id: &str,
    supports_thinking: bool,
) -> (r: ResponseRequest<Content, Tool, Rest>)
    ensures
        is_codex_response(request, model_id@, supports_thinking, r),
{
    let ghost all = request.messages@;
    let mut told: String = String::new();
    let mut input: Vec<Message<Content>> = Vec::new();
    assert(all.take(0) == Seq::<Message<Content>>::empty());
    assert(told@ == Seq::<char>::empty());
    for message in iter: request.messages
        invariant
            iter.seq() == all,
            told@ == system_text(all.take(iter.index())),
            input@ == without_system(all.take(iter.index())),
    {
        proof {
            let k = iter.index();
            assert(all.take(k + 1).drop_last() == all.take(k));
            assert(all.take(k + 1).last() == message);
        }
        match message.role {
            Role::System => {
                told = join(told, message.text.as_str());
            },
            _ => {
                input.push(message);
            },
        }
    }
    assert(all.take(all.len() as int) == all);
    let instructions = if told.as_str().is_empty() {
        INSTRUCTIONS.to_owned()
    } else {
        told
    };
    let parallel_tool_calls = if request.tools.len() == 0 {
        None
    } else {
        Some(true)
    };
    let reasoning_effort = if supports_thinking {
        Some(ReasoningEffort::Medium)
    } else {
        None
    };
    ResponseRequest {
        model: model_id.to_owned(),
        instructions: Some(instructions),
        input,
        tools: request.tools,
        tool_choice: request.tool_choice,
        parallel_tool_calls,
        reasoning_effort,
        stream: true,
        store: Some(false),
        max_output_tokens: None,
        prompt_cache_key: request.thread_id,
        rest: request.rest,
    }
}

} // verus!
