//! The provider and its models.

use crate::credentials::copy_text;
use crate::error::CodexError;
use crate::request::{
    into_codex_response, is_codex_response, LanguageModelRequest, ResponseRequest,
};
use crate::state::{
    is_refresh_of, needs_refresh, token_needs_refresh, DeleteCredentials, Freshness,
    ReadCredentials, Refresh, State, StateView, CREDENTIAL_KEY,
};
use vstd::prelude::*;

verus! {

/// The name of the provider in settings.
pub const PROVIDER_ID: &'static str = "openai_codex";

/// The name of the provider for people.
pub const PROVIDER_NAME: &'static str = "OpenAI Codex";

/// The backend, unless the settings name another.
pub const DEFAULT_API_URL: &'static str = "https://chatgpt.com/backend-api/codex";

/// The authorization server, unless the settings name another.
pub const DEFAULT_AUTH_URL: &'static str = "https://auth.openai.com";

/// How many requests of one model run at a time.
pub const REQUEST_LIMIT: usize = 4;

/// Addresses that replace the usual ones where they are not empty.
#[derive(Debug, PartialEq)]
pub struct OpenAiCodexSettings {
    pub api_url: String,
    pub auth_url: String,
}

impl Clone for OpenAiCodexSettings {
    fn clone(&self) -> (r: Self)
        ensures
            r == *self,
    {
        OpenAiCodexSettings { api_url: self.api_url.clone(), auth_url: self.auth_url.clone() }
    }
}

impl Default for OpenAiCodexSettings {
    fn default() -> (r: Self)
        ensures
            r.api_url@.len() == 0,
            r.auth_url@.len() == 0,
    {
        OpenAiCodexSettings { api_url: String::new(), auth_url: String::new() }
    }
}

/// The address from the settings, or the usual one where that is empty.
pub open spec fn effective_url(setting: Seq<char>, usual: Seq<char>) -> Seq<char> {
    if setting.len() == 0 {
        usual
    } else {
        setting
    }
}

/// What a model is.
pub struct CodexModelView {
    pub id: Seq<char>,
    pub display_name: Seq<char>,
    pub max_tokens: u64,
    pub max_output: u64,
    pub supports_thinking: bool,
}

/// A model that the backend offers.
#[derive(Clone, Copy)]
pub struct CodexModel {
    pub id: &'static str,
    pub display_name: &'static str,
    pub max_tokens: u64,
    pub max_output: u64,
    pub supports_thinking: bool,
}

impl View for CodexModel {
    type V = CodexModelView;

    open spec fn view(&self) -> CodexModelView {
        CodexModelView {
            id: self.id@,
            display_name: self.display_name@,
            max_tokens: self.max_tokens,
            max_output: self.max_output,
            supports_thinking: self.supports_thinking,
        }
    }
}

/// The models that the backend offers.
pub open spec fn model_table() -> Seq<CodexModelView> {
    seq![
        CodexModelView {
            id: "gpt-5-codex"@,
            display_name: "GPT-5 Codex"@,
            max_tokens: 272_000,
            max_output: 128_000,
            supports_thinking: false,
        },
        CodexModelView {
            id: "gpt-5.2"@,
            display_name: "GPT-5.2"@,
            max_tokens: 400_000,
            max_output: 128_000,
            supports_thinking: false,
        },
        CodexModelView {
            id: "gpt-5.2-codex"@,
            display_name: "GPT-5.2 Codex"@,
            max_tokens: 400_000,
            max_output: 128_000,
            supports_thinking: false,
        },
        CodexModelView {
            id: "gpt-5.3-codex"@,
            display_name: "GPT-5.3 Codex"@,
            max_tokens: 400_000,
            max_output: 128_000,
            supports_thinking: true,
        },
        CodexModelView {
            id: "gpt-5.4"@,
            display_name: "GPT-5.4"@,
            max_tokens: 1_050_000,
            max_output: 128_000,
            supports_thinking: false,
        },
    ]
}

/// What models are.
pub open spec fn model_views(models: Seq<CodexModel>) -> Seq<CodexModelView> {
    models.map_values(|model: CodexModel| model@)
}

/// Lists the models that the backend offers.
pub fn codex_models() -> (r: Vec<CodexModel>)
    ensures
        model_views(r@) == model_table(),
{
    let mut models: Vec<CodexModel> = Vec::new();
    models.push(
        CodexModel {
            id: "gpt-5-codex",
            display_name: "GPT-5 Codex",
            max_tokens: 272_000,
            max_output: 128_000,
            supports_thinking: false,
        },
    );
    models.push(
        CodexModel {
            id: "gpt-5.2",
            display_name: "GPT-5.2",
            max_tokens: 400_000,
            max_output: 128_000,
            supports_thinking: false,
        },
    );
    models.push(
        CodexModel {
            id: "gpt-5.2-codex",
            display_name: "GPT-5.2 Codex",
            max_tokens: 400_000,
            max_output: 128_000,
            supports_thinking: false,
        },
    );
    models.push(
        CodexModel {
            id: "gpt-5.3-codex",
            display_name: "GPT-5.3 Codex",
            max_tokens: 400_000,
            max_output: 128_000,
            supports_thinking: true,
        },
    );
    models.push(
        CodexModel {
            id: "gpt-5.4",
            display_name: "GPT-5.4",
            max_tokens: 1_050_000,
            max_output: 128_000,
            supports_thinking: false,
        },
    );
    assert(model_views(models@) == model_table());
    models
}

/// Which tools a model is asked to use.
#[derive(Clone, Copy, PartialEq, Eq, Structural, Debug)]
pub enum LanguageModelToolChoice {
    Auto,
    Any,
    Never,
}

/// Why a completion failed.
pub enum CompletionError {
    /// The user has to sign in first.
    Authentication { provider: &'static str, message: String },
    /// Anything else.
    Other(CodexError),
}

/// What a request to the backend is authorized by.
pub struct Authorization {
    pub access_token: String,
    pub account_id: String,
}

/// What a request to the backend starts with.
pub enum Dispatch {
    /// The request is sent, authorized by this.
    Send(Authorization),
    /// The access token is replaced first.
    RefreshFirst(Refresh),
    /// The access token is being replaced: the end of that is waited for.
    AwaitRefresh,
}

/// A model as the provider offers it.
pub struct OpenAiCodexLanguageModel {
    pub id: String,
    pub model: CodexModel,
    /// How many requests run at a time.
    pub request_limit: usize,
}

/// The offer of a model.
pub open spec fn is_offer_of(offer: OpenAiCodexLanguageModel, model: CodexModelView) -> bool {
    &&& offer.id@ == model.id
    &&& offer.model@ == model
    &&& offer.request_limit == REQUEST_LIMIT
}

/// The provider: its state.
pub struct OpenAiCodexLanguageModelProvider {
    pub state: State,
}

impl OpenAiCodexLanguageModelProvider {
    /// The provider before anything happened.
    pub fn new() -> (r: Self)
        ensures
            r.state@ == StateView::initial(),
    {
        OpenAiCodexLanguageModelProvider { state: State::new() }
    }

    /// Gives the address of the backend.
    pub fn api_url(settings: &OpenAiCodexSettings) -> (r: String)
        ensures
            r@ == effective_url(settings.api_url@, DEFAULT_API_URL@),
    {
        if settings.api_url.as_str().is_empty() {
            DEFAULT_API_URL.to_owned()
        } else {
            settings.api_url.clone()
        }
    }

    /// Gives the address of the authorization server.
    pub fn auth_url(settings: &OpenAiCodexSettings) -> (r: String)
        ensures
            r@ == effective_url(settings.auth_url@, DEFAULT_AUTH_URL@),
    {
        if settings.auth_url.as_str().is_empty() {
            DEFAULT_AUTH_URL.to_owned()
        } else {
            settings.auth_url.clone()
        }
    }

    /// Offers a model.
    pub fn create_language_model(&self, model: CodexModel) -> (r: OpenAiCodexLanguageModel)
        ensures
            is_offer_of(r, model@),
    {
        OpenAiCodexLanguageModel {
            id: model.id.to_owned(),
            model,
            request_limit: REQUEST_LIMIT,
        }
    }

    /// The name of the provider in settings.
    pub fn id(&self) -> (r: &'static str)
        ensures
            r@ == PROVIDER_ID@,
    {
        PROVIDER_ID
    }

    /// The name of the provider for people.
    pub fn name(&self) -> (r: &'static str)
        ensures
            r@ == PROVIDER_NAME@,
    {
        PROVIDER_NAME
    }

    /// The model that is used unless another is chosen.
    pub fn default_model(&self) -> (r: OpenAiCodexLanguageModel)
        ensures
            is_offer_of(r, model_table()[3]),
    {
        let models = codex_models();
        assert(model_views(models@).len() == models@.len());
        assert(model_views(models@)[3] == models@[3]@);
        self.create_language_model(models[3])
    }

    /// The model that is used for quick work.
    pub fn default_fast_model(&self) -> (r: OpenAiCodexLanguageModel)
        ensures
            is_offer_of(r, model_table()[0]),
    {
        let models = codex_models();
        assert(model_views(models@).len() == models@.len());
        assert(model_views(models@)[0] == models@[0]@);
        self.create_language_model(models[0])
    }

    /// Every model that the backend offers.
    pub fn provided_models(&self) -> (r: Vec<OpenAiCodexLanguageModel>)
        ensures
            r@.len() == model_table().len(),
            forall|i: int| 0 <= i < r@.len() ==> is_offer_of(#[trigger] r@[i], model_table()[i]),
    {
        let models = codex_models();
        let ghost table = model_views(models@);
        let mut offers: Vec<OpenAiCodexLanguageModel> = Vec::new();
        let mut i: usize = 0;
        while i < models.len()
            invariant
                table == model_views(models@),
                i <= models@.len(),
                offers@.len() == i,
                forall|j: int| 0 <= j < i ==> is_offer_of(#[trigger] offers@[j], table[j]),
            decreases models@.len() - i,
        {
            let offer = self.create_language_model(models[i]);
            assert(table[i as int] == models@[i as int]@);
            offers.push(offer);
            i = i + 1;
        }
        assert(table.len() == models@.len());
        offers
    }

    /// Tells whether somebody is signed in.
    pub fn is_authenticated(&self) -> (r: bool)
        ensures
            r == self.state@.authenticated(),
    {
        self.state.is_authenticated()
    }

    /// Asks for the kept credentials, unless they were looked up before.
    pub fn authenticate(&self) -> (r: Option<ReadCredentials>)
        ensures
            match r {
                Some(read) => !self.state@.credentials_loaded && read.key@ == CREDENTIAL_KEY@,
                None => self.state@.credentials_loaded,
            },
    {
        self.state.load_credentials_if_needed()
    }

    /// Signs out, and asks for the kept credentials to be forgotten.
    pub fn reset_credentials(&mut self) -> (r: DeleteCredentials)
        ensures
            final(self).state@ == old(self).state@.after_deleting(),
            r.key@ == CREDENTIAL_KEY@,
    {
        self.state.delete_credentials()
    }
}

/// The user is told to sign in, in the words for this reason.
pub open spec fn is_sign_in_error(error: CompletionError, reason: CodexError) -> bool {
    &&& error matches CompletionError::Authentication { provider, message }
    &&& provider@ == PROVIDER_NAME@
    &&& message@ == reason.words()
}

/// What a request is authorized by in this state. Without credentials, or where they do not tell
/// the account, the user has to sign in first.
pub open spec fn is_authorization(
    state: StateView,
    outcome: Result<Authorization, CompletionError>,
) -> bool {
    match state.credentials {
        None => outcome is Err && is_sign_in_error(outcome->Err_0, CodexError::SignInRequired),
        Some(credentials) => match credentials.account_id {
            None => outcome is Err && is_sign_in_error(
                outcome->Err_0,
                CodexError::AccountUnknown,
            ),
            Some(account_id) => {
                &&& outcome is Ok
                &&& outcome->Ok_0.access_token@ == credentials.access_token
                &&& outcome->Ok_0.account_id@ == account_id
            },
        },
    }
}

/// What a request starts with in this state, at this time. An access token with too little time
/// left is replaced before anything is sent.
pub open spec fn is_dispatch(
    before: StateView,
    after: StateView,
    auth_url: Seq<char>,
    now_ms: u64,
    outcome: Result<Dispatch, CompletionError>,
) -> bool {
    if before.credentials is Some && needs_refresh(
        before.credentials->Some_0.expires_at_ms,
        now_ms,
    ) {
        if before.refreshing {
            &&& outcome matches Ok(Dispatch::AwaitRefresh)
            &&& after == before
        } else {
            &&& outcome matches Ok(Dispatch::RefreshFirst(refresh))
            &&& is_refresh_of(refresh, auth_url, before.credentials->Some_0)
            &&& after == before.during_refresh()
        }
    } else {
        &&& after == before
        &&& match outcome {
            Ok(Dispatch::Send(authorization)) => is_authorization(
                before,
                Ok::<Authorization, CompletionError>(authorization),
            ),
            Ok(_) => false,
            Err(error) => is_authorization(before, Err::<Authorization, CompletionError>(error)),
        }
    }
}

/// The error with which a completion ends in this error: those that a sign-in mends are told as
/// such.
pub open spec fn is_completion_error(error: CodexError, told: CompletionError) -> bool {
    if error is SignInRequired || error is AccountUnknown || error is SignInExpired {
        is_sign_in_error(told, error)
    } else {
        told == CompletionError::Other(error)
    }
}

/// Makes the error with which a completion ends.
pub fn completion_error(error: CodexError) -> (r: CompletionError)
    ensures
        is_completion_error(error, r),
{
    match error {
        CodexError::SignInRequired | CodexError::AccountUnknown | CodexError::SignInExpired => {
            CompletionError::Authentication { provider: PROVIDER_NAME, message: error.message() }
        },
        _ => CompletionError::Other(error),
    }
}

/// Authorizes a request in this state, whatever time its access token has left.
pub fn authorize(state: &State) -> (r: Result<Authorization, CompletionError>)
    ensures
        is_authorization(state@, r),
{
    let credentials = match &state.credentials {
        Some(credentials) => credentials,
        None => {
            return Err(completion_error(CodexError::SignInRequired));
        },
    };
    match copy_text(&credentials.account_id) {
        Some(account_id) => Ok(
            Authorization { access_token: credentials.access_token.clone(), account_id },
        ),
        None => Err(completion_error(CodexError::AccountUnknown)),
    }
}

impl OpenAiCodexLanguageModel {
    /// The name of the model in settings.
    pub fn id(&self) -> (r: String)
        ensures
            r@ == self.id@,
    {
        self.id.clone()
    }

    /// The name of the model for people.
    pub fn name(&self) -> (r: String)
        ensures
            r@ == self.model@.display_name,
    {
        self.model.display_name.to_owned()
    }

    /// The name of the provider in settings.
    pub fn provider_id(&self) -> (r: &'static str)
        ensures
            r@ == PROVIDER_ID@,
    {
        PROVIDER_ID
    }

    /// The name of the provider for people.
    pub fn provider_name(&self) -> (r: &'static str)
        ensures
            r@ == PROVIDER_NAME@,
    {
        PROVIDER_NAME
    }

    /// The model can call tools.
    pub fn supports_tools(&self) -> (r: bool)
        ensures
            r,
    {
        true
    }

    /// The model can read images.
    pub fn supports_images(&self) -> (r: bool)
        ensures
            r,
    {
        true
    }

    /// The model takes any choice of tools.
    pub fn supports_tool_choice(&self, choice: LanguageModelToolChoice) -> (r: bool)
        ensures
            r,
    {
        match choice {
            LanguageModelToolChoice::Auto => true,
            LanguageModelToolChoice::Any => true,
            LanguageModelToolChoice::Never => true,
        }
    }

    /// The model streams its calls of tools.
    pub fn supports_streaming_tools(&self) -> (r: bool)
        ensures
            r,
    {
        true
    }

    /// Tells whether the model thinks before it answers.
    pub fn supports_thinking(&self) -> (r: bool)
        ensures
            r == self.model@.supports_thinking,
    {
        self.model.supports_thinking
    }

    /// The tokens that went in and came out are shown apart.
    pub fn supports_split_token_display(&self) -> (r: bool)
        ensures
            r,
    {
        true
    }

    /// The name of the model in telemetry.
    pub fn telemetry_id(&self) -> (r: String)
        ensures
            r@ == "openai_codex/"@ + self.model@.id,
    {
        "openai_codex/".to_owned().concat(self.model.id)
    }

    /// How many tokens a conversation may hold.
    pub fn max_token_count(&self) -> (r: u64)
        ensures
            r == self.model@.max_tokens,
    {
        self.model.max_tokens
    }

    /// How many tokens an answer may hold.
    pub fn max_output_tokens(&self) -> (r: Option<u64>)
        ensures
            r == Some(self.model@.max_output),
    {
        Some(self.model.max_output)
    }

    /// Starts a request for this model at the time `now_ms`: an access token with too little time
    /// left is replaced first, and a request without credentials or without an account is refused.
    /// After a refresh, `authorize` gives what the request is sent with.
    pub fn stream_response(&self, state: &mut State, auth_url: &str, now_ms: u64) -> (r: Result<
        Dispatch,
        CompletionError,
    >)
        ensures
            is_dispatch(old(state)@, final(state)@, auth_url@, now_ms, r),
    {
        let stale = match &state.credentials {
            Some(credentials) => token_needs_refresh(credentials.expires_at_ms, now_ms),
            None => false,
        };
        if stale {
            return match state.force_refresh(auth_url) {
                Ok(Freshness::Stale(refresh)) => Ok(Dispatch::RefreshFirst(refresh)),
                Ok(_) => Ok(Dispatch::AwaitRefresh),
                Err(error) => Err(completion_error(error)),
            };
        }
        match authorize(state) {
            Ok(authorization) => Ok(Dispatch::Send(authorization)),
            Err(error) => Err(error),
        }
    }

    /// Makes a conversation with this model a request.
    pub fn stream_completion<Content, Tool, Rest>(
        &self,
        request: LanguageModelRequest<Content, Tool, Rest>,
    ) -> (r: ResponseRequest<Content, Tool, Rest>)
        ensures
            is_codex_response(request, self.model@.id, self.model@.supports_thinking, r),
    {
        into_codex_response(request, self.model.id, self.model.supports_thinking)
    }
}

} // verus!
