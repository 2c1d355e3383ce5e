//! Who is signed in, and how that changes.

use crate::callback::OAuthCallback;
use crate::clock::{clock_showed_millis, now_ms};
use crate::credentials::{
    credentials_at, credentials_of, CredentialsView, OpenAiCodexCredentials, TokenResponse,
};
use crate::encoding::{form_encoded, url_safe_base64};
use crate::error::CodexError;
use crate::http::{token_post, HttpRequest};
use crate::oauth::{
    authorization_url, build_authorization_url, challenge_of, exchange_code_for_credentials,
    exchange_pairs, generate_pkce_challenge, random_url_safe, refresh_credentials, refresh_pairs,
    token_endpoint, token_url, PkceChallenge, SECRET_LENGTH,
};
use crate::text::{optional_text, same_text};
use vstd::prelude::*;

verus! {

/// The name under which the credentials are kept between runs.
pub const CREDENTIAL_KEY: &'static str = "https://chatgpt.com/backend-api/codex/oauth";

/// The user name under which they are kept.
pub const CREDENTIAL_USER: &'static str = "oauth";

/// A token with fewer milliseconds left is replaced before it is used.
pub const REFRESH_WINDOW_MS: u64 = 60_000;

/// What a state holds.
pub struct StateView {
    pub credentials: Option<CredentialsView>,
    pub credentials_loaded: bool,
    pub auth_url: Option<Seq<char>>,
    pub error: Option<Seq<char>>,
    pub refreshing: bool,
}

/// Who is signed in, whether that was looked up, the page of a sign-in that is under way, what went
/// wrong last, and whether a refresh is under way.
pub struct State {
    pub credentials: Option<OpenAiCodexCredentials>,
    pub credentials_loaded: bool,
    pub auth_url: Option<String>,
    pub error: Option<String>,
    pub refreshing: bool,
}

/// What optional credentials hold.
pub open spec fn held(credentials: Option<OpenAiCodexCredentials>) -> Option<CredentialsView> {
    match credentials {
        Some(credentials) => Some(credentials@),
        None => None,
    }
}

impl View for State {
    type V = StateView;

    open spec fn view(&self) -> StateView {
        StateView {
            credentials: held(self.credentials),
            credentials_loaded: self.credentials_loaded,
            auth_url: optional_text(self.auth_url),
            error: optional_text(self.error),
            refreshing: self.refreshing,
        }
    }
}

impl StateView {
    /// The state before anything happened.
    pub open spec fn initial() -> StateView {
        StateView {
            credentials: None,
            credentials_loaded: false,
            auth_url: None,
            error: None,
            refreshing: false,
        }
    }

    /// Credentials are held only once they were looked up or made.
    pub open spec fn well_formed(self) -> bool {
        self.credentials is Some ==> self.credentials_loaded
    }

    /// Somebody is signed in: there are credentials with a refresh token.
    pub open spec fn authenticated(self) -> bool {
        match self.credentials {
            Some(credentials) => credentials.refresh_token.len() > 0,
            None => false,
        }
    }

    /// The state once the kept credentials, or their absence, are known.
    pub open spec fn after_loading(self, found: Option<CredentialsView>) -> StateView {
        StateView {
            credentials: found,
            credentials_loaded: true,
            error: if found is Some {
                None
            } else {
                self.error
            },
            ..self
        }
    }

    /// The state once credentials are handed over to be kept.
    pub open spec fn after_storing(self, credentials: CredentialsView) -> StateView {
        StateView { credentials: Some(credentials), credentials_loaded: true, ..self }
    }

    /// The state after a sign-out.
    pub open spec fn after_deleting(self) -> StateView {
        StateView { credentials: None, credentials_loaded: true, error: None, ..self }
    }

    /// The state once a refresh has begun.
    pub open spec fn during_refresh(self) -> StateView {
        StateView { refreshing: true, ..self }
    }

    /// The state once refreshed credentials are kept.
    pub open spec fn after_refresh(self, credentials: CredentialsView) -> StateView {
        StateView { credentials: Some(credentials), error: None, refreshing: false, ..self }
    }

    /// The state after a refresh whose credentials could not be kept.
    pub open spec fn after_unkept_refresh(self) -> StateView {
        StateView { refreshing: false, ..self }
    }

    /// The state after a refresh that failed.
    pub open spec fn after_failed_refresh(self, words: Seq<char>) -> StateView {
        StateView { error: Some(words), refreshing: false, ..self }
    }

    /// The state after a refresh whose refresh token is no longer valid.
    pub open spec fn after_refused_refresh(self, words: Seq<char>) -> StateView {
        StateView {
            credentials: None,
            credentials_loaded: true,
            error: Some(words),
            refreshing: false,
            ..self
        }
    }

    /// The state while the user signs in on this page.
    pub open spec fn during_sign_in(self, page: Seq<char>) -> StateView {
        StateView { auth_url: Some(page), error: None, ..self }
    }

    /// The state after a sign-in.
    pub open spec fn after_sign_in(self, credentials: CredentialsView) -> StateView {
        StateView {
            credentials: Some(credentials),
            credentials_loaded: true,
            auth_url: None,
            error: None,
            ..self
        }
    }

    /// The state after a sign-in that ended in an error. One that was called off is no failure.
    pub open spec fn after_failed_sign_in(self, error: CodexError) -> StateView {
        StateView {
            auth_url: None,
            error: if error is Cancelled {
                None
            } else {
                Some(error.words())
            },
            ..self
        }
    }
}

/// A token that ends at this time is replaced before it is used.
pub open spec fn needs_refresh(expires_at_ms: u64, now_ms: u64) -> bool {
    expires_at_ms - now_ms < REFRESH_WINDOW_MS
}

/// Tells whether a token that ends at this time is replaced before it is used.
pub fn token_needs_refresh(expires_at_ms: u64, now_ms: u64) -> (r: bool)
    ensures
        r == needs_refresh(expires_at_ms, now_ms),
{
    expires_at_ms < now_ms || expires_at_ms - now_ms < REFRESH_WINDOW_MS
}

/// The store for secrets is asked to read what is kept under the key.
pub struct ReadCredentials {
    pub key: &'static str,
}

/// The store for secrets is asked to keep the credentials under the key.
pub struct WriteCredentials {
    pub key: &'static str,
    pub user: &'static str,
    pub credentials: OpenAiCodexCredentials,
}

/// The store for secrets is asked to forget what is kept under the key.
pub struct DeleteCredentials {
    pub key: &'static str,
}

/// These credentials are to be kept, under the one key.
pub open spec fn is_write_of(write: WriteCredentials, credentials: CredentialsView) -> bool {
    &&& write.key@ == CREDENTIAL_KEY@
    &&& write.user@ == CREDENTIAL_USER@
    &&& write.credentials@ == credentials
}

/// Asks for credentials to be kept.
fn keep(credentials: OpenAiCodexCredentials) -> (r: WriteCredentials)
    ensures
        is_write_of(r, credentials@),
{
    WriteCredentials { key: CREDENTIAL_KEY, user: CREDENTIAL_USER, credentials }
}

/// What the store for secrets answered to a read.
pub enum StoredCredentials {
    /// The store failed; the text says why.
    Unreadable(String),
    /// Nothing is kept under the key.
    Absent,
    /// What is kept are no credentials: reading it ended at this place.
    Invalid { line: u64, column: u64 },
    /// These credentials are kept.
    Found(OpenAiCodexCredentials),
}

/// What is left to do before the access token can be used.
pub enum Freshness {
    /// Nothing: the token is fresh.
    Fresh,
    /// The token has to be replaced first.
    Stale(Refresh),
    /// The token is being replaced: the end of that is to be waited for.
    Pending,
}

/// A refresh whose request is to be sent.
pub struct Refresh {
    pub request: HttpRequest,
    /// The credentials that are replaced.
    pub previous: OpenAiCodexCredentials,
    /// The request was sent once before, and did not get through.
    pub retried: bool,
}

/// How a refresh goes on after the answer to its request.
pub enum RefreshStep {
    /// The new credentials are to be kept.
    Keep(RefreshKeeping),
    /// The request did not get through, and is to be sent once more.
    Retry(Refresh),
    /// The refresh token is no longer valid: the kept credentials are to be forgotten.
    SignedOut { delete: DeleteCredentials, error: CodexError },
    /// The refresh failed.
    Failed(CodexError),
}

/// A refresh whose credentials are to be kept.
pub struct RefreshKeeping {
    pub write: WriteCredentials,
}

/// A sign-in that waits for the callback.
pub struct SignIn {
    /// The page on which the user signs in.
    pub authorization_url: String,
    /// The endpoint that hands out tokens.
    pub token_url: String,
    /// The state that the callback has to bring back.
    pub state: String,
    /// The secret that the challenge announced.
    pub verifier: String,
}

/// A sign-in whose request for tokens is to be sent.
pub struct SignInExchange {
    pub request: HttpRequest,
}

/// A sign-in whose credentials are to be kept.
pub struct SignInKeeping {
    pub write: WriteCredentials,
}

/// The first try to replace these credentials.
pub open spec fn is_refresh_of(
    refresh: Refresh,
    auth_url: Seq<char>,
    credentials: CredentialsView,
) -> bool {
    &&& refresh.request@ == token_post(
        token_endpoint(auth_url),
        form_encoded(refresh_pairs(credentials.refresh_token)),
    )
    &&& refresh.previous@ == credentials
    &&& !refresh.retried
}

/// What comes of the wish to replace the access token: a refresh, unless one is under way.
pub open spec fn is_forced_refresh(
    before: StateView,
    after: StateView,
    auth_url: Seq<char>,
    outcome: Result<Freshness, CodexError>,
) -> bool {
    match before.credentials {
        None => {
            &&& outcome is Err
            &&& outcome->Err_0 is SignInRequired
            &&& after == before
        },
        Some(credentials) => if before.refreshing {
            &&& outcome matches Ok(Freshness::Pending)
            &&& after == before
        } else {
            &&& outcome matches Ok(Freshness::Stale(refresh))
            &&& is_refresh_of(refresh, auth_url, credentials)
            &&& after == before.during_refresh()
        },
    }
}

/// What is left to do, at this time, before the access token can be used: nothing where it has time
/// enough left, and otherwise a refresh, unless one is under way.
pub open spec fn is_freshness(
    before: StateView,
    after: StateView,
    auth_url: Seq<char>,
    now_ms: u64,
    outcome: Result<Freshness, CodexError>,
) -> bool {
    if before.credentials is Some && !needs_refresh(
        before.credentials->Some_0.expires_at_ms,
        now_ms,
    ) {
        &&& outcome matches Ok(Freshness::Fresh)
        &&& after == before
    } else {
        is_forced_refresh(before, after, auth_url, outcome)
    }
}

/// What the store's answer to a read does to the state. Where the store failed or holds no
/// credentials, nothing changes.
pub open spec fn is_store_answer(
    stored: StoredCredentials,
    before: State,
    after: State,
    outcome: Result<(), CodexError>,
) -> bool {
    match stored {
        StoredCredentials::Unreadable(reason) => {
            &&& after == before
            &&& outcome is Err
            &&& outcome->Err_0 is Service
            &&& outcome->Err_0->Service_0@ == reason@
        },
        StoredCredentials::Absent => {
            &&& after@ == before@.after_loading(None)
            &&& outcome is Ok
        },
        StoredCredentials::Invalid { line, column } => {
            &&& after == before
            &&& outcome == Err::<(), CodexError>(CodexError::InvalidCredentials { line, column })
        },
        StoredCredentials::Found(credentials) => {
            &&& after@ == before@.after_loading(Some(credentials@))
            &&& outcome is Ok
        },
    }
}

/// How a refresh goes on after the answer to its request.
pub open spec fn is_refresh_step(
    refresh: Refresh,
    before: State,
    after: State,
    answer: Result<TokenResponse, CodexError>,
    now_ms: u64,
    step: RefreshStep,
) -> bool {
    match answer {
        Ok(response) => {
            &&& after == before
            &&& step is Keep
            &&& is_write_of(
                step->Keep_0.write,
                credentials_of(response@, Some(refresh.previous@), now_ms)->Some_0,
            )
        },
        Err(error) => if error is Transport && !refresh.retried {
            &&& after == before
            &&& step matches RefreshStep::Retry(again)
            &&& again.request@ == refresh.request@
            &&& again.previous@ == refresh.previous@
            &&& again.retried
        } else if error is SignInExpired {
            &&& after@ == before@.after_refused_refresh(error.words())
            &&& after@.credentials is None
            &&& step matches RefreshStep::SignedOut { delete, error: told }
            &&& delete.key@ == CREDENTIAL_KEY@
            &&& told == error
        } else {
            &&& after@ == before@.after_failed_refresh(error.words())
            &&& step == RefreshStep::Failed(error)
        },
    }
}

/// How a refresh ends once its credentials are kept, or could not be kept.
pub open spec fn is_refresh_end(
    keeping: RefreshKeeping,
    before: State,
    after: State,
    outcome: Result<(), CodexError>,
    r: Result<(), CodexError>,
) -> bool {
    match outcome {
        Ok(_) => {
            &&& after@ == before@.after_refresh(keeping.write.credentials@)
            &&& r is Ok
        },
        Err(error) => {
            &&& after@ == before@.after_unkept_refresh()
            &&& r == Err::<(), CodexError>(error)
        },
    }
}

/// How a sign-in goes on after the wait for the callback.
pub open spec fn is_called_back(
    sign_in: SignIn,
    outcome: Result<OAuthCallback, CodexError>,
    r: Result<SignInExchange, CodexError>,
) -> bool {
    match outcome {
        Ok(callback) => if callback.state@ == sign_in.state@ {
            &&& r is Ok
            &&& r->Ok_0.request@ == token_post(
                sign_in.token_url@,
                form_encoded(exchange_pairs(callback.code@, sign_in.verifier@)),
            )
        } else {
            r is Err && r->Err_0 is StateMismatch
        },
        Err(error) => r == Err::<SignInExchange, CodexError>(error),
    }
}

/// How a sign-in goes on after the answer to its request for tokens.
pub open spec fn is_exchange_answer(
    answer: Result<TokenResponse, CodexError>,
    now_ms: u64,
    r: Result<SignInKeeping, CodexError>,
) -> bool {
    match answer {
        Ok(response) => match credentials_of(response@, None, now_ms) {
            Some(credentials) => r is Ok && is_write_of(r->Ok_0.write, credentials),
            None => r is Err && r->Err_0 is MissingRefreshToken,
        },
        Err(error) => r == Err::<SignInKeeping, CodexError>(error),
    }
}

/// How a sign-in ends once its credentials are kept, or could not be kept.
pub open spec fn is_sign_in_end(
    keeping: SignInKeeping,
    before: State,
    after: State,
    outcome: Result<(), CodexError>,
    r: Result<(), CodexError>,
) -> bool {
    match outcome {
        Ok(_) => {
            &&& after@ == before@.after_sign_in(keeping.write.credentials@)
            &&& r is Ok
        },
        Err(error) => {
            &&& after == before
            &&& r == Err::<(), CodexError>(error)
        },
    }
}

/// The sign-in that starts with these secrets.
pub open spec fn is_sign_in(
    sign_in: SignIn,
    auth_url: Seq<char>,
    challenge: Seq<char>,
    verifier: Seq<char>,
    state: Seq<char>,
) -> bool {
    &&& sign_in.authorization_url@ == authorization_url(auth_url, challenge, state)
    &&& sign_in.token_url@ == token_endpoint(auth_url)
    &&& sign_in.state@ == state
    &&& sign_in.verifier@ == verifier
}

impl State {
    /// Nobody is signed in, and nothing was looked up.
    pub fn new() -> (r: State)
        ensures
            r@ == StateView::initial(),
    {
        State {
            credentials: None,
            credentials_loaded: false,
            auth_url: None,
            error: None,
            refreshing: false,
        }
    }

    /// Tells whether somebody is signed in.
    pub fn is_authenticated(&self) -> (r: bool)
        ensures
            r == self@.authenticated(),
    {
        match &self.credentials {
            Some(credentials) => !credentials.refresh_token.as_str().is_empty(),
            None => false,
        }
    }

    /// Asks for the kept credentials, unless they were looked up before.
    pub fn load_credentials_if_needed(&self) -> (r: Option<ReadCredentials>)
        ensures
            match r {
                Some(read) => !self@.credentials_loaded && read.key@ == CREDENTIAL_KEY@,
                None => self@.credentials_loaded,
            },
    {
        if self.credentials_loaded {
            None
        } else {
            Some(ReadCredentials { key: CREDENTIAL_KEY })
        }
    }

    /// Takes over what the store answered. Where it failed or holds no credentials, nothing
    /// changes.
    pub fn credentials_read(&mut self, stored: StoredCredentials) -> (r: Result<(), CodexError>)
        ensures
            is_store_answer(stored, *old(self), *final(self), r),
    {
        match stored {
            StoredCredentials::Unreadable(reason) => Err(CodexError::Service(reason)),
            StoredCredentials::Absent => {
                self.credentials = None;
                self.credentials_loaded = true;
                Ok(())
            },
            StoredCredentials::Invalid { line, column } => Err(
                CodexError::InvalidCredentials { line, column },
            ),
            StoredCredentials::Found(credentials) => {
                self.credentials = Some(credentials);
                self.credentials_loaded = true;
                self.error = None;
                Ok(())
            },
        }
    }

    /// Takes over credentials, and asks for them to be kept.
    pub fn store_credentials(&mut self, credentials: OpenAiCodexCredentials) -> (r:
        WriteCredentials)
        ensures
            final(self)@ == old(self)@.after_storing(credentials@),
            is_write_of(r, credentials@),
    {
        self.credentials = Some(credentials.clone());
        self.credentials_loaded = true;
        keep(credentials)
    }

    /// Signs out, and asks for the kept credentials to be forgotten.
    pub fn delete_credentials(&mut self) -> (r: DeleteCredentials)
        ensures
            final(self)@ == old(self)@.after_deleting(),
            r.key@ == CREDENTIAL_KEY@,
    {
        self.credentials = None;
        self.credentials_loaded = true;
        self.error = None;
        DeleteCredentials { key: CREDENTIAL_KEY }
    }

    /// Starts to replace the access token, unless that is under way.
    pub fn force_refresh(&mut self, auth_url: &str) -> (r: Result<Freshness, CodexError>)
        ensures
            is_forced_refresh(old(self)@, final(self)@, auth_url@, r),
    {
        match &self.credentials {
            None => Err(CodexError::SignInRequired),
            Some(credentials) => {
                if self.refreshing {
                    return Ok(Freshness::Pending);
                }
                match refresh_credentials(auth_url, credentials) {
                    Ok(request) => {
                        let refresh = Refresh {
                            request,
                            previous: credentials.clone(),
                            retried: false,
                        };
                        self.refreshing = true;
                        Ok(Freshness::Stale(refresh))
                    },
                    Err(error) => Err(error),
                }
            },
        }
    }

    /// Tells what is left to do before the access token can be used at the time `now_ms`, and starts
    /// to replace the token where it has too little time left, unless that is under way.
    pub fn ensure_fresh_token_at(&mut self, auth_url: &str, now_ms: u64) -> (r: Result<
        Freshness,
        CodexError,
    >)
        ensures
            is_freshness(old(self)@, final(self)@, auth_url@, now_ms, r),
    {
        if let Some(credentials) = &self.credentials {
            if !token_needs_refresh(credentials.expires_at_ms, now_ms) {
                return Ok(Freshness::Fresh);
            }
        }
        self.force_refresh(auth_url)
    }

    /// Tells what is left to do before the access token can be used at the time that the clock
    /// shows, and starts to replace it where it has too little time left, unless that is under way.
    pub fn ensure_fresh_token(&mut self, auth_url: &str) -> (r: Result<Freshness, CodexError>)
        ensures
            exists|now_ms: u64| #[trigger]
                clock_showed_millis(now_ms) && is_freshness(
                    old(self)@,
                    final(self)@,
                    auth_url@,
                    now_ms,
                    r,
                ),
    {
        let now_ms: u64 = now_ms();
        self.ensure_fresh_token_at(auth_url, now_ms)
    }

    /// Starts a sign-in with these secrets.
    pub fn start_sign_in(&mut self, auth_url: &str, pkce: PkceChallenge, state: String) -> (r:
        SignIn)
        ensures
            is_sign_in(r, auth_url@, pkce.challenge@, pkce.verifier@, state@),
            final(self)@ == old(self)@.during_sign_in(r.authorization_url@),
    {
        let page = build_authorization_url(auth_url, pkce.challenge.as_str(), state.as_str());
        self.auth_url = Some(page.clone());
        self.error = None;
        SignIn {
            authorization_url: page,
            token_url: token_url(auth_url),
            state,
            verifier: pkce.verifier,
        }
    }

    /// Starts a sign-in with new secrets.
    pub fn sign_in(&mut self, auth_url: &str) -> (r: SignIn)
        ensures
            is_sign_in(r, auth_url@, challenge_of(r.verifier@), r.verifier@, r.state@),
            exists|random: Seq<u8>|
                random.len() == SECRET_LENGTH && r.verifier@ == #[trigger] url_safe_base64(random),
            exists|random: Seq<u8>|
                random.len() == SECRET_LENGTH && r.state@ == #[trigger] url_safe_base64(random),
            final(self)@ == old(self)@.during_sign_in(r.authorization_url@),
    {
        let pkce = generate_pkce_challenge();
        let state = random_url_safe(SECRET_LENGTH);
        self.start_sign_in(auth_url, pkce, state)
    }

    /// Ends a sign-in that ended in an error. One that was called off is no failure.
    pub fn sign_in_failed(&mut self, error: &CodexError)
        ensures
            final(self)@ == old(self)@.after_failed_sign_in(*error),
    {
        self.error = match error {
            CodexError::Cancelled => None,
            _ => Some(error.message()),
        };
        self.auth_url = None;
    }
}

impl Refresh {
    /// Goes on after the answer to the request. New tokens make new credentials, to be kept. A
    /// request that did not get through is sent once more. Where the refresh token is no longer
    /// valid, nobody is signed in any more. Any other failure is remembered.
    pub fn answered(
        self,
        state: &mut State,
        answer: Result<TokenResponse, CodexError>,
        now_ms: u64,
    ) -> (r: RefreshStep)
        ensures
            is_refresh_step(self, *old(state), *final(state), answer, now_ms, r),
    {
        let made = match answer {
            Ok(response) => credentials_at(response, Some(&self.previous), now_ms),
            Err(error) => Err(error),
        };
        let error = match made {
            Ok(credentials) => {
                return RefreshStep::Keep(RefreshKeeping { write: keep(credentials) });
            },
            Err(error) => error,
        };
        match error {
            CodexError::Transport(reason) => {
                if !self.retried {
                    return RefreshStep::Retry(
                        Refresh { request: self.request, previous: self.previous, retried: true },
                    );
                }
                state.error = Some(reason.clone());
                state.refreshing = false;
                RefreshStep::Failed(CodexError::Transport(reason))
            },
            CodexError::SignInExpired => {
                state.credentials = None;
                state.credentials_loaded = true;
                state.error = Some(CodexError::SignInExpired.message());
                state.refreshing = false;
                RefreshStep::SignedOut {
                    delete: DeleteCredentials { key: CREDENTIAL_KEY },
                    error: CodexError::SignInExpired,
                }
            },
            error => {
                state.error = Some(error.message());
                state.refreshing = false;
                RefreshStep::Failed(error)
            },
        }
    }
}

impl RefreshKeeping {
    /// Ends the refresh: takes over the credentials once they are kept. Where they could not be
    /// kept, the earlier ones stay.
    pub fn written(self, state: &mut State, outcome: Result<(), CodexError>) -> (r: Result<
        (),
        CodexError,
    >)
        ensures
            is_refresh_end(self, *old(state), *final(state), outcome, r),
    {
        state.refreshing = false;
        match outcome {
            Ok(()) => {
                state.credentials = Some(self.write.credentials);
                state.error = None;
                Ok(())
            },
            Err(error) => Err(error),
        }
    }
}

impl SignIn {
    /// Asks for tokens against the code of the callback, provided that it brought back the state.
    pub fn called_back(self, outcome: Result<OAuthCallback, CodexError>) -> (r: Result<
        SignInExchange,
        CodexError,
    >)
        ensures
            is_called_back(self, outcome, r),
    {
        let callback = match outcome {
            Ok(callback) => callback,
            Err(error) => {
                return Err(error);
            },
        };
        if !same_text(callback.state.as_str(), self.state.as_str()) {
            return Err(CodexError::StateMismatch);
        }
        match exchange_code_for_credentials(
            self.token_url.as_str(),
            callback.code.as_str(),
            self.verifier.as_str(),
        ) {
            Ok(request) => Ok(SignInExchange { request }),
            Err(error) => Err(error),
        }
    }
}

impl SignInExchange {
    /// Makes credentials of the answer to the request, to be kept.
    pub fn answered(self, answer: Result<TokenResponse, CodexError>, now_ms: u64) -> (r: Result<
        SignInKeeping,
        CodexError,
    >)
        ensures
            is_exchange_answer(answer, now_ms, r),
    {
        let made = match answer {
            Ok(response) => credentials_at(response, None, now_ms),
            Err(error) => Err(error),
        };
        match made {
            Ok(credentials) => Ok(SignInKeeping { write: keep(credentials) }),
            Err(error) => Err(error),
        }
    }
}

impl SignInKeeping {
    /// Takes over the credentials once they are kept. Where they could not be kept, nothing
    /// changes.
    pub fn written(self, state: &mut State, outcome: Result<(), CodexError>) -> (r: Result<
        (),
        CodexError,
    >)
        ensures
            is_sign_in_end(self, *old(state), *final(state), outcome, r),
    {
        match outcome {
            Ok(()) => {
                state.credentials = Some(self.write.credentials);
                state.credentials_loaded = true;
                state.auth_url = None;
                state.error = None;
                Ok(())
            },
            Err(error) => Err(error),
        }
    }
}

} // verus!
