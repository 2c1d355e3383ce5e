//! What each step does to the state, field by field, and what steps in a row come to.

use super::oauth::tokens_are_handed_out_at_the_server;
use super::text::all_slashes;
use crate::clock::{clock_showed, clock_showed_millis, epoch_millis};
use crate::credentials::{optional_view, CredentialsView, OpenAiCodexCredentials, TokenResponse};
use crate::encoding::form_encoded;
use crate::error::CodexError;
use crate::oauth::CLIENT_ID;
use crate::state::{
    is_exchange_answer, is_forced_refresh, is_freshness, is_refresh_end, is_refresh_step,
    is_sign_in_end, is_store_answer, is_write_of, Freshness, Refresh, RefreshKeeping, RefreshStep,
    SignInKeeping, State, StateView, StoredCredentials, WriteCredentials, CREDENTIAL_KEY,
    CREDENTIAL_USER,
};
use crate::text::optional_text;
use vstd::prelude::*;

verus! {

/// The view of a state shows each field of it, and that of credentials and of a token response each
/// of theirs.
pub proof fn views_show_every_field(
    state: State,
    credentials: OpenAiCodexCredentials,
    response: TokenResponse,
)
    ensures
        state@.credentials is Some <==> state.credentials is Some,
        state.credentials is Some ==> state@.credentials->Some_0 == state.credentials->Some_0@,
        state@.credentials_loaded == state.credentials_loaded,
        state@.auth_url is Some <==> state.auth_url is Some,
        state.auth_url is Some ==> state@.auth_url->Some_0 == state.auth_url->Some_0@,
        state@.error is Some <==> state.error is Some,
        state.error is Some ==> state@.error->Some_0 == state.error->Some_0@,
        state@.refreshing == state.refreshing,
        credentials@.access_token == credentials.access_token@,
        credentials@.refresh_token == credentials.refresh_token@,
        credentials@.expires_at_ms == credentials.expires_at_ms,
        credentials@.account_id is Some <==> credentials.account_id is Some,
        credentials.account_id is Some ==> credentials@.account_id->Some_0
            == credentials.account_id->Some_0@,
        response@.access_token == response.access_token@,
        response@.refresh_token is Some <==> response.refresh_token is Some,
        response.refresh_token is Some ==> response@.refresh_token->Some_0
            == response.refresh_token->Some_0@,
        response@.expires_in == response.expires_in,
        response@.id_token is Some <==> response.id_token is Some,
        response.id_token is Some ==> response@.id_token->Some_0 == response.id_token->Some_0@,
{
}

/// Earlier credentials count as they are, where there are any.
pub proof fn earlier_credentials_count_as_they_are(credentials: OpenAiCodexCredentials)
    ensures
        optional_view(Some(&credentials)) == Some(credentials@),
        optional_view(None) is None,
{
}

/// The state before anything happened holds nothing.
pub proof fn the_start_is_empty()
    ensures
        StateView::initial().credentials is None,
        !StateView::initial().credentials_loaded,
        StateView::initial().auth_url is None,
        StateView::initial().error is None,
        !StateView::initial().refreshing,
{
}

/// Somebody is signed in if and only if there is a refresh token that is not empty.
pub proof fn signed_in_means_a_refresh_token(state: StateView)
    ensures
        state.authenticated() <==> state.credentials is Some
            && state.credentials->Some_0.refresh_token != Seq::<char>::empty(),
{
    if state.credentials is Some && state.credentials->Some_0.refresh_token.len() == 0 {
        assert(state.credentials->Some_0.refresh_token == Seq::<char>::empty());
    }
}

/// What the store holds is taken over as it is. Nothing else changes but the last error, which goes
/// where credentials were found.
pub proof fn found_credentials_are_taken_over(
    stored: StoredCredentials,
    before: State,
    after: State,
    outcome: Result<(), CodexError>,
)
    requires
        is_store_answer(stored, before, after, outcome),
    ensures
        outcome is Ok <==> (stored is Absent || stored is Found),
        outcome is Err ==> after == before,
        stored is Unreadable ==> outcome->Err_0 is Service && outcome->Err_0->Service_0@
            == stored->Unreadable_0@,
        stored is Invalid ==> outcome == Err::<(), CodexError>(
            (CodexError::InvalidCredentials { line: stored->line, column: stored->column }),
        ),
        outcome is Ok ==> after.credentials_loaded && after@.auth_url == before@.auth_url
            && after.refreshing == before.refreshing,
        stored is Found ==> after@.credentials == Some(stored->Found_0@) && after.error is None,
        stored is Absent ==> after.credentials is None && after@.error == before@.error,
{
}

/// Stored credentials are held as they are, in every field; nothing else changes.
pub proof fn stored_credentials_are_held(state: StateView, credentials: CredentialsView)
    ensures
        state.after_storing(credentials).credentials == Some(credentials),
        state.after_storing(credentials).credentials_loaded,
        state.after_storing(credentials).auth_url == state.auth_url,
        state.after_storing(credentials).error == state.error,
        state.after_storing(credentials).refreshing == state.refreshing,
        state.after_loading(Some(credentials)).credentials == Some(credentials),
        state.after_loading(Some(credentials)).error is None,
        state.after_loading(None).credentials is None,
        state.after_loading(None).error == state.error,
{
}

/// A sign-out forgets the credentials and the last error; nothing else changes.
pub proof fn a_sign_out_forgets_the_credentials(state: StateView)
    ensures
        state.after_deleting().credentials is None,
        state.after_deleting().credentials_loaded,
        state.after_deleting().error is None,
        state.after_deleting().auth_url == state.auth_url,
        state.after_deleting().refreshing == state.refreshing,
{
}

/// After a refresh whose credentials were kept, the state holds exactly those that were kept, in
/// every field. The last error is gone, and nothing else changes.
pub proof fn refreshed_credentials_are_those_that_were_kept(
    state: StateView,
    credentials: CredentialsView,
)
    ensures
        state.after_refresh(credentials).credentials == Some(credentials),
        state.after_refresh(credentials).error is None,
        !state.after_refresh(credentials).refreshing,
        state.after_refresh(credentials).credentials_loaded == state.credentials_loaded,
        state.after_refresh(credentials).auth_url == state.auth_url,
{
}

/// A refresh that fails changes the last error alone; one that cannot be kept changes nothing; one
/// whose refresh token is no longer valid forgets the credentials as well. Each of them ends.
pub proof fn failed_refreshes_change_little(state: StateView, words: Seq<char>)
    ensures
        state.during_refresh().refreshing,
        state.during_refresh().credentials == state.credentials,
        state.during_refresh().credentials_loaded == state.credentials_loaded,
        state.during_refresh().auth_url == state.auth_url,
        state.during_refresh().error == state.error,
        !state.after_failed_refresh(words).refreshing,
        state.after_failed_refresh(words).error == Some(words),
        state.after_failed_refresh(words).credentials == state.credentials,
        state.after_failed_refresh(words).credentials_loaded == state.credentials_loaded,
        state.after_failed_refresh(words).auth_url == state.auth_url,
        !state.after_unkept_refresh().refreshing,
        state.after_unkept_refresh().error == state.error,
        state.after_unkept_refresh().credentials == state.credentials,
        state.after_unkept_refresh().credentials_loaded == state.credentials_loaded,
        state.after_unkept_refresh().auth_url == state.auth_url,
        !state.after_refused_refresh(words).refreshing,
        state.after_refused_refresh(words).error == Some(words),
        state.after_refused_refresh(words).credentials is None,
        state.after_refused_refresh(words).credentials_loaded,
        state.after_refused_refresh(words).auth_url == state.auth_url,
{
}

/// A sign-in shows its page while it is under way; it ends in exactly the credentials that were
/// kept, or in the words for the error, or, called off, in neither. Nothing else changes.
pub proof fn sign_ins_change_what_they_should(
    state: StateView,
    page: Seq<char>,
    credentials: CredentialsView,
    error: CodexError,
)
    ensures
        state.during_sign_in(page).auth_url == Some(page),
        state.during_sign_in(page).error is None,
        state.during_sign_in(page).credentials == state.credentials,
        state.during_sign_in(page).credentials_loaded == state.credentials_loaded,
        state.during_sign_in(page).refreshing == state.refreshing,
        state.after_sign_in(credentials).credentials == Some(credentials),
        state.after_sign_in(credentials).credentials_loaded,
        state.after_sign_in(credentials).auth_url is None,
        state.after_sign_in(credentials).error is None,
        state.after_sign_in(credentials).refreshing == state.refreshing,
        state.after_failed_sign_in(error).auth_url is None,
        error is Cancelled ==> state.after_failed_sign_in(error).error is None,
        !(error is Cancelled) ==> state.after_failed_sign_in(error).error == Some(error.words()),
        state.after_failed_sign_in(error).credentials == state.credentials,
        state.after_failed_sign_in(error).credentials_loaded == state.credentials_loaded,
        state.after_failed_sign_in(error).refreshing == state.refreshing,
{
}

/// What the store is asked to keep are the credentials, in every field, under the one key.
pub proof fn what_is_kept_is_what_was_made(write: WriteCredentials, credentials: CredentialsView)
    requires
        is_write_of(write, credentials),
    ensures
        write.key@ == "https://chatgpt.com/backend-api/codex/oauth"@,
        write.user@ == "oauth"@,
        write.credentials.access_token@ == credentials.access_token,
        write.credentials.refresh_token@ == credentials.refresh_token,
        write.credentials.expires_at_ms == credentials.expires_at_ms,
        optional_text(write.credentials.account_id) == credentials.account_id,
{
}

/// A call for a fresh token asks for a sign-in without credentials, says that the token is fresh
/// if it has at least sixty seconds left, waits for a refresh that is under way, and otherwise
/// starts one.
pub proof fn freshness_is_decided_by_time_left(
    before: StateView,
    after: StateView,
    auth_url: Seq<char>,
    now_ms: u64,
    outcome: Result<Freshness, CodexError>,
)
    requires
        is_freshness(before, after, auth_url, now_ms, outcome),
    ensures
        before.credentials is None <==> outcome is Err,
        outcome is Err ==> outcome->Err_0 is SignInRequired,
        before.credentials is Some && before.credentials->Some_0.expires_at_ms >= now_ms + 60_000
            <==> outcome matches Ok(Freshness::Fresh),
        before.credentials is Some && before.credentials->Some_0.expires_at_ms < now_ms + 60_000
            && before.refreshing <==> outcome matches Ok(Freshness::Pending),
        before.credentials is Some && before.credentials->Some_0.expires_at_ms < now_ms + 60_000
            && !before.refreshing <==> outcome matches Ok(Freshness::Stale(_)),
        after.refreshing == (before.refreshing || outcome matches Ok(Freshness::Stale(_))),
        after.credentials == before.credentials,
        after.credentials_loaded == before.credentials_loaded,
        after.auth_url == before.auth_url,
        after.error == before.error,
{
}

/// A token that by every reading of a clock between 1970 and the largest number has ended, or ends
/// less than sixty seconds later, is never said to be fresh.
pub proof fn ended_tokens_are_never_fresh(
    before: StateView,
    after: StateView,
    auth_url: Seq<char>,
    outcome: Result<Freshness, CodexError>,
)
    requires
        exists|now_ms: u64| #[trigger]
            clock_showed_millis(now_ms) && is_freshness(before, after, auth_url, now_ms, outcome),
        before.credentials is Some,
        forall|millis: u128| #[trigger]
            clock_showed(Some(millis)) && millis <= u64::MAX ==> before.credentials->Some_0.expires_at_ms
                < millis + 60_000,
        forall|elapsed: Option<u128>| #[trigger]
            clock_showed(elapsed) ==> elapsed is Some && elapsed->Some_0 <= u64::MAX,
    ensures
        !(outcome matches Ok(Freshness::Fresh)),
        outcome is Ok,
{
    let now_ms = choose|now_ms: u64| #[trigger]
        clock_showed_millis(now_ms) && is_freshness(before, after, auth_url, now_ms, outcome);
    let elapsed = choose|elapsed: Option<u128>| #[trigger]
        clock_showed(elapsed) && now_ms == epoch_millis(elapsed);
    assert(clock_showed(Some(elapsed->Some_0)));
    assert(now_ms == elapsed->Some_0);
}

/// A refresh that starts posts the whole refresh token that the state holds, in a form, to the
/// authorization server, and remembers the credentials that it replaces.
pub proof fn a_refresh_posts_the_refresh_token_of_the_state(
    before: StateView,
    after: StateView,
    base: Seq<char>,
    cut: Seq<char>,
    outcome: Result<Freshness, CodexError>,
)
    requires
        base.len() == 0 || base.last() != '/',
        all_slashes(cut),
        is_forced_refresh(before, after, base + cut, outcome),
        outcome matches Ok(Freshness::Stale(_)),
    ensures
        before.credentials is Some,
        !before.refreshing,
        after.refreshing,
        ({
            let refresh = outcome->Ok_0->Stale_0;
            &&& refresh.request@.method == "POST"@
            &&& refresh.request@.uri == base + "/oauth/token"@
            &&& refresh.request@.headers == seq![
                ("Content-Type"@, "application/x-www-form-urlencoded"@),
            ]
            &&& refresh.request@.body == form_encoded(
                seq![
                    ("grant_type"@, "refresh_token"@),
                    ("client_id"@, CLIENT_ID@),
                    ("refresh_token"@, before.credentials->Some_0.refresh_token),
                ],
            )
            &&& refresh.previous@ == before.credentials->Some_0
            &&& !refresh.retried
        }),
{
    tokens_are_handed_out_at_the_server(base, cut);
    let token = before.credentials->Some_0.refresh_token;
    assert(crate::oauth::refresh_pairs(token) == seq![
        ("grant_type"@, "refresh_token"@),
        ("client_id"@, CLIENT_ID@),
        ("refresh_token"@, token),
    ]);
}

/// The answer to a refresh decides how it goes on: new tokens are to be kept, a first failure to
/// get through is tried again with the same request, a refresh token that is no longer valid ends
/// the sign-in, and any other error ends the refresh.
pub proof fn answers_decide_how_a_refresh_goes_on(
    refresh: Refresh,
    before: State,
    after: State,
    answer: Result<TokenResponse, CodexError>,
    now_ms: u64,
    step: RefreshStep,
)
    requires
        is_refresh_step(refresh, before, after, answer, now_ms, step),
    ensures
        step is Keep <==> answer is Ok,
        step is Retry <==> answer is Err && answer->Err_0 is Transport && !refresh.retried,
        step is SignedOut <==> answer is Err && answer->Err_0 is SignInExpired,
        step is Keep || step is Retry ==> after == before,
        step is Retry ==> step->Retry_0.request@ == refresh.request@ && step->Retry_0.previous@
            == refresh.previous@ && step->Retry_0.retried,
        step is SignedOut ==> after.credentials is None && step->delete.key@ == CREDENTIAL_KEY@
            && step->error is SignInExpired
            && after@.error == Some("Sign in expired. Please sign in again."@)
            && !after.refreshing,
        step is Failed ==> after@.credentials == before@.credentials && after@.error == Some(
            answer->Err_0.words(),
        ) && step->Failed_0 == answer->Err_0 && !after.refreshing,
{
}

/// The credentials of a refresh hold the new access token, the new refresh token where there is one
/// and the earlier one otherwise, and end the told lifetime later. They are what is kept, and then
/// what the state holds.
pub proof fn a_refresh_takes_over_the_new_tokens(
    refresh: Refresh,
    start: State,
    answered: State,
    end: State,
    response: TokenResponse,
    now_ms: u64,
    keeping: RefreshKeeping,
    outcome: Result<(), CodexError>,
)
    requires
        is_refresh_step(
            refresh,
            start,
            answered,
            Ok::<TokenResponse, CodexError>(response),
            now_ms,
            RefreshStep::Keep(keeping),
        ),
        is_refresh_end(keeping, answered, end, Ok::<(), CodexError>(()), outcome),
    ensures
        outcome is Ok,
        end.credentials is Some,
        end@.credentials == Some(keeping.write.credentials@),
        keeping.write.key@ == CREDENTIAL_KEY@,
        keeping.write.user@ == CREDENTIAL_USER@,
        end.credentials->Some_0.access_token@ == response.access_token@,
        response.refresh_token is Some ==> end.credentials->Some_0.refresh_token@
            == response.refresh_token->Some_0@,
        response.refresh_token is None ==> end.credentials->Some_0.refresh_token@
            == refresh.previous.refresh_token@,
        response.expires_in is Some && now_ms + response.expires_in->Some_0 * 1000 <= u64::MAX
            ==> end.credentials->Some_0.expires_at_ms == now_ms + response.expires_in->Some_0
            * 1000,
        !end.refreshing,
        end.error is None,
{
    assert(end@.credentials == Some(end.credentials->Some_0@));
}

/// The refresh after the next sends the refresh token that the last response brought, or, where it
/// brought none, the one before.
pub proof fn the_next_refresh_sends_the_last_refresh_token(
    refresh: Refresh,
    start: State,
    answered: State,
    end: State,
    response: TokenResponse,
    now_ms: u64,
    keeping: RefreshKeeping,
    outcome: Result<(), CodexError>,
    after: StateView,
    base: Seq<char>,
    cut: Seq<char>,
    next: Result<Freshness, CodexError>,
)
    requires
        base.len() == 0 || base.last() != '/',
        all_slashes(cut),
        is_refresh_step(
            refresh,
            start,
            answered,
            Ok::<TokenResponse, CodexError>(response),
            now_ms,
            RefreshStep::Keep(keeping),
        ),
        is_refresh_end(keeping, answered, end, Ok::<(), CodexError>(()), outcome),
        is_forced_refresh(end@, after, base + cut, next),
    ensures
        next matches Ok(Freshness::Stale(_)),
        next->Ok_0->Stale_0.request@.body == form_encoded(
            seq![
                ("grant_type"@, "refresh_token"@),
                ("client_id"@, CLIENT_ID@),
                (
                    "refresh_token"@,
                    if response.refresh_token is Some {
                        response.refresh_token->Some_0@
                    } else {
                        refresh.previous.refresh_token@
                    },
                ),
            ],
        ),
{
    a_refresh_takes_over_the_new_tokens(
        refresh,
        start,
        answered,
        end,
        response,
        now_ms,
        keeping,
        outcome,
    );
    a_refresh_posts_the_refresh_token_of_the_state(end@, after, base, cut, next);
}

/// Credentials that could not be kept are not taken over.
pub proof fn unkept_credentials_are_not_taken_over(
    refreshed: RefreshKeeping,
    signed_in: SignInKeeping,
    before: State,
    after: State,
    error: CodexError,
    r: Result<(), CodexError>,
)
    requires
        is_refresh_end(refreshed, before, after, Err::<(), CodexError>(error), r) || is_sign_in_end(
            signed_in,
            before,
            after,
            Err::<(), CodexError>(error),
            r,
        ),
    ensures
        after@.credentials == before@.credentials,
        after@.error == before@.error,
        after@.auth_url == before@.auth_url,
        r == Err::<(), CodexError>(error),
{
}

/// A sign-in ends with the tokens that were handed out: they are what is kept, and then what the
/// state holds. Without a refresh token there is no sign-in.
pub proof fn a_sign_in_takes_over_the_tokens(
    response: TokenResponse,
    now_ms: u64,
    kept: Result<SignInKeeping, CodexError>,
    before: State,
    after: State,
    outcome: Result<(), CodexError>,
)
    requires
        is_exchange_answer(Ok::<TokenResponse, CodexError>(response), now_ms, kept),
        kept is Ok ==> is_sign_in_end(
            kept->Ok_0,
            before,
            after,
            Ok::<(), CodexError>(()),
            outcome,
        ),
    ensures
        kept is Ok <==> response.refresh_token is Some,
        kept is Err ==> kept->Err_0 is MissingRefreshToken,
        kept is Ok ==> {
            &&& outcome is Ok
            &&& after.credentials is Some
            &&& after@.credentials == Some(kept->Ok_0.write.credentials@)
            &&& kept->Ok_0.write.key@ == CREDENTIAL_KEY@
            &&& kept->Ok_0.write.user@ == CREDENTIAL_USER@
            &&& after.credentials->Some_0.access_token@ == response.access_token@
            &&& after.credentials->Some_0.refresh_token@ == response.refresh_token->Some_0@
            &&& after.auth_url is None
            &&& after.error is None
        },
{
    if kept is Ok {
        assert(after@.credentials == Some(after.credentials->Some_0@));
    }
}

} // verus!
