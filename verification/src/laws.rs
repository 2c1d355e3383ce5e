//! What holds of the library as a whole.

pub mod callback;
pub mod credentials;
pub mod http;
pub mod oauth;
pub mod request;
pub mod shown;
pub mod state;
pub mod text;

use crate::callback::{
    is_bind_action, is_callback_action, is_callback_outcome, is_request_action, last_value,
    query_of, CallbackAction, CallbackEvent, OAuthCallback, BIND_RETRY_MILLIS, CANCEL_URL,
    COMPLETE_PAGE, FAILED_PAGE, MAX_BIND_ATTEMPTS,
};
use crate::credentials::{
    account_id_in, account_id_in_jwt, account_id_in_optional_jwt, credentials_of, expiry,
    member_text, or_else, CredentialsView, OpenAiCodexCredentials, TokenResponse,
    TokenResponseView,
};
use crate::encoding::{base64_text_is_url_safe, form_encoded, is_url_safe, url_safe_base64};
use crate::error::CodexError;
use crate::http::codex_post;
use crate::json::JsonTree;
use crate::oauth::{authorization_url, token_endpoint, PkceChallenge, SECRET_LENGTH};
use crate::provider::{
    is_authorization, is_dispatch, is_sign_in_error, model_table, Authorization, CompletionError,
    Dispatch,
};
use crate::redaction::{
    laid_out_credentials, laid_out_pkce, laid_out_response, shown_credentials, shown_pkce,
    shown_response,
};
use crate::request::{instructions_of, joined, system_text, without_system, Message, INSTRUCTIONS};
use crate::state::{
    is_forced_refresh, is_freshness, needs_refresh, Freshness, StateView, REFRESH_WINDOW_MS,
};
use crate::text::{
    excerpt, is_white_space, trimmed, without_leading_space, without_trailing_slashes,
    without_trailing_space,
};
use crate::view::{item_if, panel, PanelItemView};
use vstd::prelude::*;

verus! {

/// Every change of the state keeps credentials apart from a state that never looked for them. A
/// refresh starts from credentials, so it finds them looked up.
pub proof fn state_stays_well_formed(
    state: StateView,
    credentials: CredentialsView,
    words: Seq<char>,
    error: CodexError,
)
    requires
        state.well_formed(),
    ensures
        StateView::initial().well_formed(),
        state.after_loading(None).well_formed(),
        state.after_loading(Some(credentials)).well_formed(),
        state.after_storing(credentials).well_formed(),
        state.after_deleting().well_formed(),
        state.during_refresh().well_formed(),
        state.credentials_loaded ==> state.after_refresh(credentials).well_formed(),
        state.after_unkept_refresh().well_formed(),
        state.after_failed_refresh(words).well_formed(),
        state.after_refused_refresh(words).well_formed(),
        state.during_sign_in(words).well_formed(),
        state.after_sign_in(credentials).well_formed(),
        state.after_failed_sign_in(error).well_formed(),
{
}

/// Credentials that were looked up once stay looked up: no later change asks for them again.
pub proof fn looked_up_stays_looked_up(
    state: StateView,
    found: Option<CredentialsView>,
    credentials: CredentialsView,
    words: Seq<char>,
    error: CodexError,
)
    requires
        state.credentials_loaded,
    ensures
        state.after_loading(found).credentials_loaded,
        state.after_storing(credentials).credentials_loaded,
        state.after_deleting().credentials_loaded,
        state.during_refresh().credentials_loaded,
        state.after_refresh(credentials).credentials_loaded,
        state.after_unkept_refresh().credentials_loaded,
        state.after_failed_refresh(words).credentials_loaded,
        state.after_refused_refresh(words).credentials_loaded,
        state.during_sign_in(words).credentials_loaded,
        state.after_sign_in(credentials).credentials_loaded,
        state.after_failed_sign_in(error).credentials_loaded,
{
}

/// While a refresh is under way, no call asks for another, whether it wants a fresh token, a new
/// one at any price, or to send a request; and such a call leaves the state as it is.
pub proof fn one_refresh_at_a_time(
    before: StateView,
    after: StateView,
    auth_url: Seq<char>,
    now_ms: u64,
    wanted: Result<Freshness, CodexError>,
    forced: Result<Freshness, CodexError>,
    sent: Result<Dispatch, CompletionError>,
)
    requires
        before.refreshing,
    ensures
        is_freshness(before, after, auth_url, now_ms, wanted) ==> after == before && !(
        wanted matches Ok(Freshness::Stale(_))),
        is_forced_refresh(before, after, auth_url, forced) ==> after == before && !(
        forced matches Ok(Freshness::Stale(_))),
        is_dispatch(before, after, auth_url, now_ms, sent) ==> after == before && !(
        sent matches Ok(Dispatch::RefreshFirst(_))),
{
}

/// A call that asks for a refresh marks it as under way. The mark stays through every look-up,
/// sign-in and sign-out, and goes with the end of the refresh.
pub proof fn a_refresh_is_marked_until_it_ends(
    before: StateView,
    after: StateView,
    auth_url: Seq<char>,
    now_ms: u64,
    outcome: Result<Freshness, CodexError>,
    found: Option<CredentialsView>,
    credentials: CredentialsView,
    words: Seq<char>,
    error: CodexError,
)
    requires
        is_freshness(before, after, auth_url, now_ms, outcome),
        outcome matches Ok(Freshness::Stale(_)),
    ensures
        !before.refreshing,
        after.refreshing,
        after.after_loading(found).refreshing,
        after.after_storing(credentials).refreshing,
        after.after_deleting().refreshing,
        after.during_sign_in(words).refreshing,
        after.after_sign_in(credentials).refreshing,
        after.after_failed_sign_in(error).refreshing,
        !after.after_refresh(credentials).refreshing,
        !after.after_unkept_refresh().refreshing,
        !after.after_failed_refresh(words).refreshing,
        !after.after_refused_refresh(words).refreshing,
{
}

/// Of two calls for a fresh token, the second before the refresh of the first has ended, at most
/// one asks for a refresh.
pub proof fn two_calls_share_one_refresh(
    start: StateView,
    between: StateView,
    end: StateView,
    auth_url: Seq<char>,
    first_ms: u64,
    second_ms: u64,
    first: Result<Freshness, CodexError>,
    second: Result<Freshness, CodexError>,
)
    requires
        is_freshness(start, between, auth_url, first_ms, first),
        first matches Ok(Freshness::Stale(_)),
        is_freshness(between, end, auth_url, second_ms, second),
        first_ms <= second_ms,
    ensures
        second matches Ok(Freshness::Pending),
        end == between,
{
}

/// After a sign-out, and after a refresh whose refresh token is no longer valid, nobody is signed
/// in, and every request asks for a sign-in.
pub proof fn sign_out_ends_access(
    state: StateView,
    words: Seq<char>,
    after: StateView,
    auth_url: Seq<char>,
    now_ms: u64,
    outcome: Result<Dispatch, CompletionError>,
)
    requires
        is_dispatch(state.after_deleting(), after, auth_url, now_ms, outcome) || is_dispatch(
            state.after_refused_refresh(words),
            after,
            auth_url,
            now_ms,
            outcome,
        ),
    ensures
        !state.after_deleting().authenticated(),
        !state.after_refused_refresh(words).authenticated(),
        outcome is Err,
        is_sign_in_error(outcome->Err_0, CodexError::SignInRequired),
{
}

/// No request goes out with an access token that has less than the window left.
pub proof fn stale_tokens_never_go_out(
    before: StateView,
    after: StateView,
    auth_url: Seq<char>,
    now_ms: u64,
    outcome: Result<Dispatch, CompletionError>,
)
    requires
        is_dispatch(before, after, auth_url, now_ms, outcome),
        outcome matches Ok(Dispatch::Send(_)),
    ensures
        before.credentials is Some,
        before.credentials->Some_0.expires_at_ms - now_ms >= REFRESH_WINDOW_MS,
{
}

/// A sign-in or a refresh that fails, and the start of either, leave the credentials as they were.
/// A refresh token that is no longer valid is the one exception.
pub proof fn failures_keep_the_credentials(state: StateView, words: Seq<char>, error: CodexError)
    ensures
        state.during_refresh().credentials == state.credentials,
        state.after_unkept_refresh().credentials == state.credentials,
        state.after_failed_refresh(words).credentials == state.credentials,
        state.after_failed_sign_in(error).credentials == state.credentials,
        state.during_sign_in(words).credentials == state.credentials,
{
}

/// A sign-in that is called off leaves the state as it was before, but for an earlier error.
pub proof fn cancelling_returns_to_the_start(state: StateView, page: Seq<char>)
    requires
        state.auth_url is None,
    ensures
        state.during_sign_in(page).after_failed_sign_in(CodexError::Cancelled) == (StateView {
            error: None,
            ..state
        }),
{
}

/// A token response with a refresh token completes a sign-in, whether or not an account can be
/// found. Then somebody is signed in; a request with a token that has time enough left goes out for
/// the account, or where none was found it is refused and says so.
pub proof fn sign_in_gives_access(
    state: StateView,
    response: TokenResponseView,
    made_ms: u64,
    after: StateView,
    auth_url: Seq<char>,
    now_ms: u64,
    outcome: Result<Dispatch, CompletionError>,
)
    requires
        response.refresh_token is Some,
        response.refresh_token->Some_0.len() > 0,
        !needs_refresh(expiry(made_ms, response.expires_in), now_ms),
        is_dispatch(
            state.after_sign_in(credentials_of(response, None, made_ms)->Some_0),
            after,
            auth_url,
            now_ms,
            outcome,
        ),
    ensures
        credentials_of(response, None, made_ms) is Some,
        state.after_sign_in(credentials_of(response, None, made_ms)->Some_0).authenticated(),
        match or_else(
            account_id_in_optional_jwt(response.id_token),
            account_id_in_jwt(response.access_token),
        ) {
            Some(account_id) => {
                &&& outcome matches Ok(Dispatch::Send(authorization))
                &&& authorization.access_token@ == response.access_token
                &&& authorization.account_id@ == account_id
            },
            None => outcome is Err && is_sign_in_error(outcome->Err_0, CodexError::AccountUnknown),
        },
{
}

/// Credentials that are kept at a sign-in and found again at the next start give the same access.
pub proof fn kept_credentials_give_the_same_access(
    state: StateView,
    credentials: CredentialsView,
    outcome: Result<Authorization, CompletionError>,
)
    ensures
        StateView::initial().after_loading(Some(credentials)) == StateView::initial().after_sign_in(
            credentials,
        ),
        state.after_sign_in(credentials).credentials == StateView::initial().after_loading(
            Some(credentials),
        ).credentials,
        is_authorization(state.after_sign_in(credentials), outcome) <==> is_authorization(
            StateView::initial().after_loading(Some(credentials)),
            outcome,
        ),
{
}

/// A request that waited for a refresh goes out with the new access token.
pub proof fn refreshed_tokens_go_out(
    state: StateView,
    response: TokenResponseView,
    previous: CredentialsView,
    now_ms: u64,
    outcome: Result<Authorization, CompletionError>,
)
    requires
        previous.account_id is Some,
        is_authorization(
            state.after_refresh(credentials_of(response, Some(previous), now_ms)->Some_0),
            outcome,
        ),
    ensures
        outcome is Ok,
        outcome->Ok_0.access_token@ == response.access_token,
{
}

/// A claim that names the account directly counts before every other, the dotted one before those
/// inside other claims, and the one inside `https://api.openai.com/auth` before an organization.
pub proof fn claims_count_in_order(claims: JsonTree)
    ensures
        ({
            let direct = member_text(claims, "chatgpt_account_id"@);
            let dotted = member_text(claims, "https://api.openai.com/auth.chatgpt_account_id"@);
            let auth = claims.member("https://api.openai.com/auth"@);
            &&& direct is Some ==> account_id_in(claims) == direct
            &&& direct is None && dotted is Some ==> account_id_in(claims) == dotted
            &&& direct is None && dotted is None && auth is Some && member_text(
                auth->Some_0,
                "chatgpt_account_id"@,
            ) is Some ==> account_id_in(claims) == member_text(
                auth->Some_0,
                "chatgpt_account_id"@,
            )
        }),
{
}

/// A refresh always gives credentials. What the response does not bring stays as it was: the
/// refresh token, and the account where no token names one.
pub proof fn refresh_keeps_what_the_response_omits(
    response: TokenResponseView,
    previous: CredentialsView,
    now_ms: u64,
)
    ensures
        ({
            let refreshed = credentials_of(response, Some(previous), now_ms);
            &&& refreshed is Some
            &&& refreshed->Some_0.access_token == response.access_token
            &&& response.refresh_token is None ==> refreshed->Some_0.refresh_token
                == previous.refresh_token
            &&& response.refresh_token is Some ==> Some(refreshed->Some_0.refresh_token)
                == response.refresh_token
            &&& refreshed->Some_0.account_id == or_else(
                account_id_in_optional_jwt(response.id_token),
                or_else(account_id_in_jwt(response.access_token), previous.account_id),
            )
            &&& previous.account_id is Some ==> refreshed->Some_0.account_id is Some
        }),
{
}

/// A token is replaced if and only if it has less than the window left.
pub proof fn tokens_are_replaced_before_they_end(expires_at_ms: u64, now_ms: u64)
    ensures
        needs_refresh(expires_at_ms, now_ms) <==> expires_at_ms - now_ms < REFRESH_WINDOW_MS,
        expires_at_ms <= now_ms ==> needs_refresh(expires_at_ms, now_ms),
{
}

/// A token that needs no replacement needed none before either.
pub proof fn freshness_only_wears_off(expires_at_ms: u64, earlier_ms: u64, later_ms: u64)
    requires
        earlier_ms <= later_ms,
        !needs_refresh(expires_at_ms, later_ms),
    ensures
        !needs_refresh(expires_at_ms, earlier_ms),
{
}

/// One refresh is enough: a token that lives as long as the window is fresh when it is made, as far
/// as the clock leaves room for its end.
pub proof fn refreshed_tokens_are_fresh(now_ms: u64, expires_in: Option<u64>)
    requires
        now_ms <= u64::MAX - REFRESH_WINDOW_MS,
        expires_in is Some ==> expires_in->Some_0 * 1000 >= REFRESH_WINDOW_MS,
    ensures
        !needs_refresh(expiry(now_ms, expires_in), now_ms),
{
}

/// A token never ends before it is made.
pub proof fn expiry_is_not_in_the_past(now_ms: u64, expires_in: Option<u64>)
    ensures
        expiry(now_ms, expires_in) >= now_ms,
{
}

/// A longer lifetime never gives an earlier end.
pub proof fn expiry_grows_with_the_lifetime(now_ms: u64, shorter: u64, longer: u64)
    requires
        shorter <= longer,
    ensures
        expiry(now_ms, Some(shorter)) <= expiry(now_ms, Some(longer)),
{
}

/// A callback that brings a code and a state, and no error, is read as these, whatever else it
/// brings.
pub proof fn callbacks_bring_code_and_state(
    pairs: Seq<(Seq<char>, Seq<char>)>,
    code: Seq<char>,
    state: Seq<char>,
    outcome: Result<OAuthCallback, CodexError>,
)
    requires
        last_value(pairs, "error"@) is None,
        last_value(pairs, "code"@) == Some(code),
        last_value(pairs, "state"@) == Some(state),
        is_callback_outcome(pairs, outcome),
    ensures
        outcome is Ok,
        outcome->Ok_0.code@ == code,
        outcome->Ok_0.state@ == state,
{
}

proof fn lemma_echoed_pairs(code: Seq<char>, state: Seq<char>)
    ensures
        ({
            let pairs = seq![("code"@, code), ("state"@, state)];
            &&& last_value(pairs, "error"@) is None
            &&& last_value(pairs, "code"@) == Some(code)
            &&& last_value(pairs, "state"@) == Some(state)
        }),
{
    reveal_strlit("code");
    reveal_strlit("state");
    reveal_strlit("error");
    let pairs = seq![("code"@, code), ("state"@, state)];
    let first = seq![("code"@, code)];
    let none = Seq::<(Seq<char>, Seq<char>)>::empty();
    assert(pairs.drop_last() == first);
    assert(first.drop_last() == none);
    assert("code"@.len() == 4 && "state"@.len() == 5 && "error"@.len() == 5);
    assert("state"@[0] != "error"@[0]);
    assert(last_value(none, "error"@) is None);
    assert(last_value(first, "error"@) is None);
    assert(last_value(first, "code"@) == Some(code));
}

/// The callback that the authorization server makes, with the code and the state that was sent
/// out, ends the wait with these, whatever characters they hold, and the browser is told so.
pub proof fn echoed_callback_is_read(code: Seq<char>, state: Seq<char>, action: CallbackAction)
    requires
        is_request_action(
            "/auth/callback?"@ + form_encoded(seq![("code"@, code), ("state"@, state)]),
            action,
        ),
    ensures
        action is AnswerAndEnd,
        action->AnswerAndEnd_0.status == 200,
        action->AnswerAndEnd_0.body@ == COMPLETE_PAGE@,
        action->AnswerAndEnd_1 is Ok,
        action->AnswerAndEnd_1->Ok_0.code@ == code,
        action->AnswerAndEnd_1->Ok_0.state@ == state,
{
    reveal_strlit("/cancel");
    reveal_strlit("/auth/callback");
    reveal_strlit("/auth/callback?");
    let pairs = seq![("code"@, code), ("state"@, state)];
    let path = "/auth/callback?"@;
    let url = path + form_encoded(pairs);
    assert(path.len() == 15 && "/auth/callback"@.len() == 14 && "/cancel"@.len() == 7);
    assert(url.take(7)[1] == 'a' && "/cancel"@[1] == 'c');
    assert(url.take(14) == "/auth/callback"@);
    url.index_of_first_ensures('?');
    assert(url[14] == '?');
    assert(url.contains('?'));
    assert(forall|k: int| 0 <= k < 14 ==> path[k] != '?');
    assert(forall|k: int| 0 <= k < 14 ==> #[trigger] url[k] == path[k]);
    assert(url.index_of_first('?') == Some(14int));
    assert(query_of(url) == form_encoded(pairs));
    lemma_echoed_pairs(code, state);
}

/// A request for the callback path ends the wait, and the browser is told whether the sign-in
/// succeeded.
pub proof fn the_browser_is_told(url: Seq<char>, action: CallbackAction)
    requires
        is_request_action(url, action),
        "/auth/callback"@.is_prefix_of(url),
    ensures
        action is AnswerAndEnd,
        action->AnswerAndEnd_1 is Ok ==> action->AnswerAndEnd_0.body@ == COMPLETE_PAGE@,
        action->AnswerAndEnd_1 is Err ==> action->AnswerAndEnd_0.body@ == FAILED_PAGE@,
{
    reveal_strlit("/cancel");
    reveal_strlit("/auth/callback");
    assert("/auth/callback"@.len() == 14 && "/cancel"@.len() == 7);
    assert(url[1] == "/auth/callback"@[1]);
    if "/cancel"@.is_prefix_of(url) {
        assert(url[1] == "/cancel"@[1]);
    }
}

/// While another program holds the port, the server tries to start until the last attempt: each
/// failure before it leads to the next attempt after the delay, the first by way of the one request
/// that calls off an earlier sign-in, and only the last one is an error.
pub proof fn a_held_port_is_tried_again(
    attempt: u32,
    reason: Seq<char>,
    action: CallbackAction,
    after_cancel: CallbackAction,
)
    requires
        1 <= attempt <= MAX_BIND_ATTEMPTS,
        is_bind_action(true, attempt, reason, action),
        is_callback_action(CallbackEvent::CancelSent, after_cancel),
    ensures
        action is End <==> attempt == MAX_BIND_ATTEMPTS,
        action is SendCancel <==> attempt == 1,
        attempt == 1 ==> action->SendCancel_0@ == CANCEL_URL@ && after_cancel
            == (CallbackAction::Bind { delay_millis: BIND_RETRY_MILLIS, attempt: 2 }),
        1 < attempt < MAX_BIND_ATTEMPTS ==> action == (CallbackAction::Bind {
            delay_millis: BIND_RETRY_MILLIS,
            attempt: (attempt + 1) as u32,
        }),
{
}

/// An error that the authorization server reports ends the sign-in, whatever else it brings.
pub proof fn reported_errors_count_first(
    pairs: Seq<(Seq<char>, Seq<char>)>,
    reason: Seq<char>,
    outcome: Result<OAuthCallback, CodexError>,
)
    requires
        last_value(pairs, "error"@) == Some(reason),
        is_callback_outcome(pairs, outcome),
    ensures
        outcome is Err,
        outcome->Err_0.words() == "OpenAI OAuth error: "@ + reason,
{
}

/// A verifier or a state is long enough for the flow and stands in a query as it is: 43 symbols,
/// none of which needs an escape.
pub proof fn secrets_are_url_safe(random: Seq<u8>)
    requires
        random.len() == SECRET_LENGTH,
    ensures
        url_safe_base64(random).len() == 43,
        forall|k: int|
            0 <= k < 43 ==> is_url_safe(#[trigger] url_safe_base64(random)[k]),
{
    base64_text_is_url_safe(random);
}

/// So many slashes.
pub open spec fn slashes(count: nat) -> Seq<char> {
    Seq::new(count, |i: int| '/')
}

proof fn lemma_slashes_are_cut(url: Seq<char>, count: nat)
    ensures
        without_trailing_slashes(url + slashes(count)) == without_trailing_slashes(url),
    decreases count,
{
    let longer = url + slashes(count);
    if count == 0 {
        assert(longer == url);
    } else {
        let fewer = (count - 1) as nat;
        assert(longer.last() == '/');
        assert(longer.drop_last() == url + slashes(fewer));
        lemma_slashes_are_cut(url, fewer);
    }
}

/// Slashes at the end of an address, however many, make no difference to what is built from it.
pub proof fn trailing_slashes_make_no_difference(
    url: Seq<char>,
    count: nat,
    a: Seq<char>,
    b: Seq<char>,
    c: Seq<char>,
)
    ensures
        authorization_url(url + slashes(count), a, b) == authorization_url(url, a, b),
        token_endpoint(url + slashes(count)) == token_endpoint(url),
        codex_post(url + slashes(count), a, b, c) == codex_post(url, a, b, c),
        without_trailing_slashes(without_trailing_slashes(url)) == without_trailing_slashes(url),
{
    lemma_slashes_are_cut(url, count);
    lemma_no_slash_left(url);
}

proof fn lemma_no_slash_left(s: Seq<char>)
    ensures
        without_trailing_slashes(s).len() > 0 ==> without_trailing_slashes(s).last() != '/',
    decreases s.len(),
{
    if s.len() > 0 && s.last() == '/' {
        lemma_no_slash_left(s.drop_last());
    }
}

proof fn lemma_no_trailing_space(s: Seq<char>)
    ensures
        without_trailing_space(s).len() > 0 ==> !is_white_space(without_trailing_space(s).last()),
        without_trailing_space(s).is_prefix_of(s),
    decreases s.len(),
{
    if s.len() > 0 && is_white_space(s.last()) {
        lemma_no_trailing_space(s.drop_last());
        let kept = without_trailing_space(s.drop_last());
        assert(s.drop_last().take(kept.len() as int) == s.take(kept.len() as int));
    } else {
        assert(s.take(s.len() as int) == s);
    }
}

proof fn lemma_no_leading_space(s: Seq<char>)
    ensures
        without_leading_space(s).len() > 0 ==> !is_white_space(without_leading_space(s).first()),
    decreases s.len(),
{
    if s.len() > 0 && is_white_space(s.first()) {
        lemma_no_leading_space(s.drop_first());
    }
}

/// The token in the header has no white space at its ends, and a token without any goes out as it
/// is.
pub proof fn bearer_tokens_are_trimmed(token: Seq<char>)
    ensures
        trimmed(token).len() > 0 ==> !is_white_space(trimmed(token).first()) && !is_white_space(
            trimmed(token).last(),
        ),
        token.len() == 0 || !is_white_space(token.first()) && !is_white_space(token.last())
            ==> trimmed(token) == token,
        trimmed(trimmed(token)) == trimmed(token),
{
    let rest = without_leading_space(token);
    lemma_no_leading_space(token);
    lemma_no_trailing_space(rest);
    if trimmed(token).len() > 0 {
        assert(trimmed(token)[0] == rest[0]);
    }
}

/// Debug output, on one line or on many, tells nothing of the tokens and of the secret of a
/// sign-in: it is the same whatever they are.
pub proof fn debug_output_hides_tokens(
    a: OpenAiCodexCredentials,
    b: OpenAiCodexCredentials,
    x: TokenResponse,
    y: TokenResponse,
    p: PkceChallenge,
    q: PkceChallenge,
)
    requires
        a@.expires_at_ms == b@.expires_at_ms,
        a@.account_id == b@.account_id,
        x@.expires_in == y@.expires_in,
        x@.refresh_token is Some <==> y@.refresh_token is Some,
        x@.id_token is Some <==> y@.id_token is Some,
        p.challenge@ == q.challenge@,
    ensures
        shown_credentials(a@.expires_at_ms, a@.account_id) == shown_credentials(
            b@.expires_at_ms,
            b@.account_id,
        ),
        laid_out_credentials(a@.expires_at_ms, a@.account_id) == laid_out_credentials(
            b@.expires_at_ms,
            b@.account_id,
        ),
        shown_response(x@.refresh_token is Some, x@.expires_in, x@.id_token is Some)
            == shown_response(y@.refresh_token is Some, y@.expires_in, y@.id_token is Some),
        laid_out_response(x@.refresh_token is Some, x@.expires_in, x@.id_token is Some)
            == laid_out_response(y@.refresh_token is Some, y@.expires_in, y@.id_token is Some),
        shown_pkce(p.challenge@) == shown_pkce(q.challenge@),
        laid_out_pkce(p.challenge@) == laid_out_pkce(q.challenge@),
{
}

/// A request always has instructions, and the usual ones where there is no system message.
pub proof fn instructions_are_never_empty<Content>(messages: Seq<Message<Content>>)
    ensures
        instructions_of(messages).len() > 0,
        (forall|i: int| 0 <= i < messages.len() ==> !((#[trigger] messages[i]).role is System))
            ==> instructions_of(messages) == INSTRUCTIONS@,
{
    reveal_strlit("You are an AI coding assistant.");
    if forall|i: int| 0 <= i < messages.len() ==> !((#[trigger] messages[i]).role is System) {
        lemma_no_system_text(messages);
    }
}

proof fn lemma_no_system_text<Content>(messages: Seq<Message<Content>>)
    requires
        forall|i: int| 0 <= i < messages.len() ==> !((#[trigger] messages[i]).role is System),
    ensures
        system_text(messages).len() == 0,
        without_system(messages) == messages,
    decreases messages.len(),
{
    if messages.len() > 0 {
        let rest = messages.drop_last();
        assert(forall|i: int| 0 <= i < rest.len() ==> #[trigger] rest[i] == messages[i]);
        assert(!(messages.last().role is System));
        lemma_no_system_text(rest);
        assert(rest.push(messages.last()) == messages);
    }
}

/// No system message stays in the input, and a conversation without any goes out whole.
pub proof fn system_messages_leave_the_input<Content>(messages: Seq<Message<Content>>)
    ensures
        forall|i: int|
            0 <= i < without_system(messages).len() ==> !((#[trigger] without_system(
                messages,
            )[i]).role is System),
        (forall|i: int| 0 <= i < messages.len() ==> !((#[trigger] messages[i]).role is System))
            ==> without_system(messages) == messages,
    decreases messages.len(),
{
    if messages.len() > 0 {
        let rest = messages.drop_last();
        system_messages_leave_the_input(rest);
    }
    if forall|i: int| 0 <= i < messages.len() ==> !((#[trigger] messages[i]).role is System) {
        lemma_no_system_text(messages);
    }
}

proof fn lemma_opening_system_message<Content>(
    system: Message<Content>,
    others: Seq<Message<Content>>,
)
    requires
        system.role is System,
        forall|i: int| 0 <= i < others.len() ==> !((#[trigger] others[i]).role is System),
    ensures
        system_text(seq![system] + others) == system.text@,
        without_system(seq![system] + others) == others,
    decreases others.len(),
{
    let messages = seq![system] + others;
    if others.len() == 0 {
        let none = Seq::<Message<Content>>::empty();
        assert(messages.drop_last() == none);
        assert(messages.last() == system);
        assert(system_text(none) == Seq::<char>::empty());
        assert(joined(system_text(none), system.text@) == system.text@);
        assert(without_system(none) == others);
    } else {
        let rest = others.drop_last();
        assert(forall|i: int| 0 <= i < rest.len() ==> #[trigger] rest[i] == others[i]);
        assert(messages.drop_last() == seq![system] + rest);
        assert(messages.last() == others.last());
        assert(!(others.last().role is System));
        lemma_opening_system_message(system, rest);
        assert(rest.push(others.last()) == others);
    }
}

/// A conversation that a system message opens takes its instructions from it, and sends the rest.
pub proof fn an_opening_system_message_instructs<Content>(
    system: Message<Content>,
    others: Seq<Message<Content>>,
)
    requires
        system.role is System,
        system.text@.len() > 0,
        forall|i: int| 0 <= i < others.len() ==> !((#[trigger] others[i]).role is System),
    ensures
        instructions_of(seq![system] + others) == system.text@,
        without_system(seq![system] + others) == others,
{
    lemma_opening_system_message(system, others);
}

/// An error repeats no more than the start of an answer.
pub proof fn excerpts_are_short_prefixes(body: Seq<char>, limit: nat)
    ensures
        excerpt(body, limit).len() <= limit,
        excerpt(body, limit).is_prefix_of(body),
        body.len() <= limit ==> excerpt(body, limit) == body,
{
    assert(body.take(body.len() as int) == body);
    assert(excerpt(body, limit) == body.take(excerpt(body, limit).len() as int));
}

/// No two models have one name, so a name in settings tells one model.
pub proof fn model_names_differ(i: int, j: int)
    requires
        0 <= i < j < model_table().len(),
    ensures
        model_table()[i].id != model_table()[j].id,
        model_table()[i].display_name != model_table()[j].display_name,
        "openai_codex/"@ + model_table()[i].id != "openai_codex/"@ + model_table()[j].id,
{
    reveal_strlit("gpt-5-codex");
    reveal_strlit("gpt-5.2");
    reveal_strlit("gpt-5.2-codex");
    reveal_strlit("gpt-5.3-codex");
    reveal_strlit("gpt-5.4");
    reveal_strlit("GPT-5 Codex");
    reveal_strlit("GPT-5.2");
    reveal_strlit("GPT-5.2 Codex");
    reveal_strlit("GPT-5.3 Codex");
    reveal_strlit("GPT-5.4");
    assert("GPT-5 Codex"@.len() == 11 && "GPT-5.2"@.len() == 7 && "GPT-5.2 Codex"@.len() == 13
        && "GPT-5.3 Codex"@.len() == 13 && "GPT-5.4"@.len() == 7);
    assert("gpt-5.2"@[6] != "gpt-5.4"@[6]);
    assert("gpt-5.2-codex"@[6] != "gpt-5.3-codex"@[6]);
    assert("GPT-5.2"@[6] != "GPT-5.4"@[6]);
    assert("GPT-5.2 Codex"@[6] != "GPT-5.3 Codex"@[6]);
    let prefix = "openai_codex/"@;
    let a = model_table()[i].id;
    let b = model_table()[j].id;
    if prefix + a == prefix + b {
        assert((prefix + a).skip(prefix.len() as int) == a);
        assert((prefix + b).skip(prefix.len() as int) == b);
    }
}

proof fn lemma_joined_items(a: Seq<PanelItemView>, b: Seq<PanelItemView>, item: PanelItemView)
    ensures
        (a + b).contains(item) <==> a.contains(item) || b.contains(item),
{
    let joined = a + b;
    if a.contains(item) {
        let i = a.index_of(item);
        assert(joined[i] == item);
    }
    if b.contains(item) {
        let i = b.index_of(item);
        assert(joined[a.len() + i] == item);
    }
    if joined.contains(item) {
        let i = joined.index_of(item);
        if i < a.len() {
            assert(a[i] == item);
        } else {
            assert(b[i - a.len()] == item);
        }
    }
}

proof fn lemma_one_item(shown: bool, item: PanelItemView, other: PanelItemView)
    ensures
        item_if(shown, item).contains(other) <==> shown && item == other,
{
    if shown {
        assert(item_if(shown, item)[0] == item);
    }
}

/// Which items the panel holds: the words about the provider always; that credentials are looked
/// up while they are; that somebody is signed in, and a way to sign out, where somebody is; a way to
/// sign in, and to the provider with an API key, where nobody is and no sign-in is under way; the
/// page of a sign-in, a way to copy its address and a way to call it off, while one is under way;
/// and the last error where there is one. So it never offers to sign in and to sign out at once.
pub proof fn panel_offers_what_can_be_done(
    state: StateView,
    loading: bool,
    signing_in: bool,
    item: PanelItemView,
)
    ensures
        panel(state, loading, signing_in).contains(item) <==> match item {
            PanelItemView::Introduction => true,
            PanelItemView::Loading => loading,
            PanelItemView::Connected => state.authenticated(),
            PanelItemView::SignInButton => !state.authenticated() && !signing_in
                && state.auth_url is None,
            PanelItemView::ApiKeyLink => !state.authenticated() && !signing_in
                && state.auth_url is None,
            PanelItemView::Page(url) => state.auth_url == Some(url),
            PanelItemView::CopyUrlButton(url) => state.auth_url == Some(url),
            PanelItemView::CancelButton => state.auth_url is Some,
            PanelItemView::SignOutButton => state.authenticated(),
            PanelItemView::Error(words) => state.error == Some(words),
        },
{
    let signed_in = state.authenticated();
    let offered = !signed_in && !signing_in && state.auth_url is None;
    let under_way = state.auth_url is Some;
    let page = PanelItemView::Page(state.auth_url->Some_0);
    let copy = PanelItemView::CopyUrlButton(state.auth_url->Some_0);
    let error = PanelItemView::Error(state.error->Some_0);
    let p0 = item_if(true, PanelItemView::Introduction);
    let p1 = p0 + item_if(loading, PanelItemView::Loading);
    let p2 = p1 + item_if(signed_in, PanelItemView::Connected);
    let p3 = p2 + item_if(offered, PanelItemView::SignInButton);
    let p4 = p3 + item_if(offered, PanelItemView::ApiKeyLink);
    let p5 = p4 + item_if(under_way, page);
    let p6 = p5 + item_if(under_way, copy);
    let p7 = p6 + item_if(under_way, PanelItemView::CancelButton);
    let p8 = p7 + item_if(signed_in, PanelItemView::SignOutButton);
    lemma_one_item(true, PanelItemView::Introduction, item);
    lemma_one_item(loading, PanelItemView::Loading, item);
    lemma_one_item(signed_in, PanelItemView::Connected, item);
    lemma_one_item(offered, PanelItemView::SignInButton, item);
    lemma_one_item(offered, PanelItemView::ApiKeyLink, item);
    lemma_one_item(under_way, page, item);
    lemma_one_item(under_way, copy, item);
    lemma_one_item(under_way, PanelItemView::CancelButton, item);
    lemma_one_item(signed_in, PanelItemView::SignOutButton, item);
    lemma_one_item(state.error is Some, error, item);
    lemma_joined_items(p0, item_if(loading, PanelItemView::Loading), item);
    lemma_joined_items(p1, item_if(signed_in, PanelItemView::Connected), item);
    lemma_joined_items(p2, item_if(offered, PanelItemView::SignInButton), item);
    lemma_joined_items(p3, item_if(offered, PanelItemView::ApiKeyLink), item);
    lemma_joined_items(p4, item_if(under_way, page), item);
    lemma_joined_items(p5, item_if(under_way, copy), item);
    lemma_joined_items(p6, item_if(under_way, PanelItemView::CancelButton), item);
    lemma_joined_items(p7, item_if(signed_in, PanelItemView::SignOutButton), item);
    lemma_joined_items(p8, item_if(state.error is Some, error), item);
}

} // verus!
