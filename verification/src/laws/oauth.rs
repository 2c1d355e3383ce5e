//! What the addresses and forms of the authorization-code flow carry.

use super::text::{addresses_come_out_whole, all_slashes};
use crate::callback::OAuthCallback;
use crate::encoding::{
    base64_decodes_what_it_encodes, base64_text_is_url_safe, form_encoded, hex_digit,
    is_alphanumeric, is_url_safe, percent_byte, percent_encoded, sha256, url_safe_base64,
    url_safe_decoded,
};
use crate::error::CodexError;
use crate::oauth::{
    authorization_url, challenge_of, exchange_pairs, refresh_pairs, token_endpoint, CLIENT_ID,
    REDIRECT_URI, SCOPE,
};
use crate::state::{is_called_back, is_sign_in, SignIn, SignInExchange};
use vstd::prelude::*;
use vstd::utf8::encode_utf8;

verus! {

/// The pieces into which a mark divides a text.
pub open spec fn pieces(s: Seq<char>, c: char) -> Seq<Seq<char>>
    decreases s.len(),
{
    if s.len() == 0 {
        seq![Seq::empty()]
    } else {
        let rest = pieces(s.drop_last(), c);
        if s.last() == c {
            rest.push(Seq::empty())
        } else {
            rest.drop_last().push(rest.last().push(s.last()))
        }
    }
}

proof fn lemma_some_piece(s: Seq<char>, c: char)
    ensures
        pieces(s, c).len() > 0,
    decreases s.len(),
{
    if s.len() > 0 {
        lemma_some_piece(s.drop_last(), c);
    }
}

proof fn lemma_one_piece(s: Seq<char>, c: char)
    requires
        !s.contains(c),
    ensures
        pieces(s, c) == seq![s],
    decreases s.len(),
{
    if s.len() > 0 {
        let rest = s.drop_last();
        assert(s[s.len() - 1] == s.last());
        assert(s.contains(s.last()));
        assert forall|x: char| rest.contains(x) implies s.contains(x) by {
            let i = rest.index_of(x);
            assert(s[i] == x);
        }
        lemma_one_piece(rest, c);
        assert(rest.push(s.last()) == s);
        assert(pieces(s, c) == seq![s]);
    } else {
        assert(s == Seq::<char>::empty());
    }
}

proof fn lemma_next_piece(s: Seq<char>, c: char, a: Seq<char>)
    requires
        !a.contains(c),
    ensures
        pieces(s + seq![c] + a, c) == pieces(s, c).push(a),
    decreases a.len(),
{
    let whole = s + seq![c] + a;
    if a.len() == 0 {
        assert(whole.last() == c);
        assert(whole.drop_last() == s);
        assert(a == Seq::<char>::empty());
    } else {
        let rest = a.drop_last();
        assert(a[a.len() - 1] == a.last());
        assert(a.contains(a.last()));
        assert forall|x: char| rest.contains(x) implies a.contains(x) by {
            let i = rest.index_of(x);
            assert(a[i] == x);
        }
        lemma_next_piece(s, c, rest);
        assert(whole.last() == a.last());
        assert(whole.drop_last() == s + seq![c] + rest);
        let before = pieces(s, c).push(rest);
        assert(before.last() == rest);
        assert(before.drop_last() == pieces(s, c));
        assert(rest.push(a.last()) == a);
    }
}

proof fn lemma_append(h: Seq<char>, x: Seq<char>, y: Seq<char>)
    ensures
        h + x + y == h + (x + y),
{
    assert(h + x + y == h + (x + y));
}

proof fn lemma_percent_text_is_one_piece(bytes: Seq<u8>)
    ensures
        !percent_encoded(bytes).contains('&'),
    decreases bytes.len(),
{
    if bytes.len() > 0 {
        lemma_percent_text_is_one_piece(bytes.drop_first());
        let rest = percent_encoded(bytes.drop_first());
        let byte = bytes.first();
        let head = if is_alphanumeric(byte) || byte == 0x2d || byte == 0x5f || byte == 0x2e || byte
            == 0x7e {
            seq![byte as char]
        } else {
            percent_byte(byte)
        };
        assert(percent_encoded(bytes) == head + rest);
        assert forall|i: int| 0 <= i < head.len() implies head[i] != '&' by {
            assert(hex_digit(byte as int / 16) != '&');
            assert(hex_digit(byte as int % 16) != '&');
        }
        if (head + rest).contains('&') {
            let i = (head + rest).index_of('&');
            if i >= head.len() {
                assert(rest[i - head.len()] == '&');
            }
        }
    }
}

proof fn lemma_prefixed(prefix: Seq<char>, value: Seq<char>, c: char)
    requires
        !prefix.contains(c),
        !value.contains(c),
    ensures
        !(prefix + value).contains(c),
{
    if (prefix + value).contains(c) {
        let i = (prefix + value).index_of(c);
        if i < prefix.len() {
            assert(prefix[i] == c);
        } else {
            assert(value[i - prefix.len()] == c);
        }
    }
}

proof fn lemma_words_of_the_start()
    ensures
        "/oauth/authorize?response_type=code&client_id="@ == "/oauth/authorize?"@ + (
        "response_type=code"@ + seq!['&'] + "client_id="@),
{
    reveal_strlit("/oauth/authorize?response_type=code&client_id=");
    reveal_strlit("/oauth/authorize?");
    reveal_strlit("response_type=code");
    reveal_strlit("client_id=");
    assert("/oauth/authorize?response_type=code&client_id="@ == "/oauth/authorize?"@ + (
    "response_type=code"@ + seq!['&'] + "client_id="@));
}

proof fn lemma_words_of_the_middle()
    ensures
        "&redirect_uri="@ == seq!['&'] + "redirect_uri="@,
        "&scope="@ == seq!['&'] + "scope="@,
        "&code_challenge="@ == seq!['&'] + "code_challenge="@,
{
    reveal_strlit("&redirect_uri=");
    reveal_strlit("redirect_uri=");
    reveal_strlit("&scope=");
    reveal_strlit("scope=");
    reveal_strlit("&code_challenge=");
    reveal_strlit("code_challenge=");
    assert("&redirect_uri="@ == seq!['&'] + "redirect_uri="@);
    assert("&scope="@ == seq!['&'] + "scope="@);
    assert("&code_challenge="@ == seq!['&'] + "code_challenge="@);
}

proof fn lemma_words_of_the_state()
    ensures
        "&code_challenge_method=S256&state="@ == seq!['&'] + "code_challenge_method=S256"@ + seq![
            '&',
        ] + "state="@,
{
    reveal_strlit("&code_challenge_method=S256&state=");
    reveal_strlit("code_challenge_method=S256");
    reveal_strlit("state=");
    assert("&code_challenge_method=S256&state="@ == seq!['&'] + "code_challenge_method=S256"@
        + seq!['&'] + "state="@);
}

proof fn lemma_words_of_the_end()
    ensures
        "&id_token_add_organizations=true&codex_cli_simplified_flow=true&originator="@ + "zed"@
            == seq!['&'] + "id_token_add_organizations=true"@ + seq!['&']
            + "codex_cli_simplified_flow=true"@ + seq!['&'] + "originator=zed"@,
{
    reveal_strlit("&id_token_add_organizations=true&codex_cli_simplified_flow=true&originator=");
    reveal_strlit("zed");
    reveal_strlit("id_token_add_organizations=true");
    reveal_strlit("codex_cli_simplified_flow=true");
    reveal_strlit("originator=zed");
    assert("&id_token_add_organizations=true&codex_cli_simplified_flow=true&originator="@ + "zed"@
        == seq!['&'] + "id_token_add_organizations=true"@ + seq!['&']
        + "codex_cli_simplified_flow=true"@ + seq!['&'] + "originator=zed"@);
}

/// One more parameter, behind the mark.
proof fn lemma_parameter(
    h: Seq<char>,
    x: Seq<char>,
    marked: Seq<char>,
    mark: Seq<char>,
    name: Seq<char>,
    value: Seq<char>,
)
    requires
        marked == mark + name,
    ensures
        h + x + marked + value == h + (x + mark + (name + value)),
{
    assert(h + x + marked + value == h + (x + mark + (name + value)));
}

/// The page on which the user signs in, as it is built up.
proof fn lemma_page_is_built_up(
    h: Seq<char>,
    base: Seq<char>,
    challenge: Seq<char>,
    state: Seq<char>,
)
    requires
        h == base + "/oauth/authorize?"@,
        base.len() == 0 || base.last() != '/',
    ensures
        authorization_url(base, challenge, state) == h + ("response_type=code"@ + seq!['&'] + (
        "client_id="@ + CLIENT_ID@) + seq!['&'] + ("redirect_uri="@ + percent_encoded(
            encode_utf8(REDIRECT_URI@),
        )) + seq!['&'] + ("scope="@ + percent_encoded(encode_utf8(SCOPE@))) + seq!['&'] + (
        "code_challenge="@ + challenge) + seq!['&'] + "code_challenge_method=S256"@ + seq!['&'] + (
        "state="@ + state) + seq!['&'] + "id_token_add_organizations=true"@ + seq!['&']
            + "codex_cli_simplified_flow=true"@ + seq!['&'] + "originator=zed"@),
{
    lemma_words_of_the_start();
    lemma_words_of_the_middle();
    lemma_words_of_the_state();
    lemma_words_of_the_end();
    let redirect = percent_encoded(encode_utf8(REDIRECT_URI@));
    let scope = percent_encoded(encode_utf8(SCOPE@));
    let none = Seq::<char>::empty();
    addresses_come_out_whole(base, none);
    assert(base + none == base);
    let and = seq!['&'];
    let p0 = "response_type=code"@;
    let x0 = p0 + and + "client_id="@;
    lemma_append(base, "/oauth/authorize?"@, x0);
    let u0 = base + "/oauth/authorize?response_type=code&client_id="@;
    assert(u0 == h + x0);
    let x1 = p0 + and + ("client_id="@ + CLIENT_ID@);
    let u1 = u0 + CLIENT_ID@;
    lemma_append(h, x0, CLIENT_ID@);
    lemma_append(p0 + and, "client_id="@, CLIENT_ID@);
    assert(u1 == h + x1);
    let x2 = x1 + and + ("redirect_uri="@ + redirect);
    let u2 = u1 + "&redirect_uri="@ + redirect;
    lemma_parameter(h, x1, "&redirect_uri="@, and, "redirect_uri="@, redirect);
    let x3 = x2 + and + ("scope="@ + scope);
    let u3 = u2 + "&scope="@ + scope;
    lemma_parameter(h, x2, "&scope="@, and, "scope="@, scope);
    let x4 = x3 + and + ("code_challenge="@ + challenge);
    let u4 = u3 + "&code_challenge="@ + challenge;
    lemma_parameter(h, x3, "&code_challenge="@, and, "code_challenge="@, challenge);
    let method = and + "code_challenge_method=S256"@ + and;
    let middle = "&code_challenge_method=S256&state="@;
    let x6 = x4 + and + "code_challenge_method=S256"@ + and + ("state="@ + state);
    let u6 = u4 + middle + state;
    lemma_parameter(h, x4, middle, method, "state="@, state);
    assert(x4 + method + ("state="@ + state) == x6) by {
        lemma_append(x4, and, "code_challenge_method=S256"@);
        lemma_append(x4, and + "code_challenge_method=S256"@, and);
    }
    assert(u6 == h + x6);
    let end = "&id_token_add_organizations=true&codex_cli_simplified_flow=true&originator="@;
    let add = "id_token_add_organizations=true"@;
    let flow = "codex_cli_simplified_flow=true"@;
    let who = "originator=zed"@;
    let ending = and + add + and + flow + and + who;
    let x9 = x6 + and + add + and + flow + and + who;
    let u9 = u6 + end + "zed"@;
    lemma_append(u6, end, "zed"@);
    assert(u9 == u6 + ending);
    lemma_append(h, x6, ending);
    assert(x6 + ending == x9) by {
        lemma_append(x6, and, add);
        lemma_append(x6, and + add, and);
        lemma_append(x6, and + add + and, flow);
        lemma_append(x6, and + add + and + flow, and);
        lemma_append(x6, and + add + and + flow + and, who);
    }
    assert(authorization_url(base, challenge, state) == u9);
}

/// The page on which the user signs in stands at the authorization server, and its query, divided
/// at `&`, holds the whole challenge and the whole state under their names, and the eight other
/// parameters of the flow. Slashes behind the server's address make no difference.
pub proof fn the_page_carries_challenge_and_state(
    base: Seq<char>,
    cut: Seq<char>,
    challenge: Seq<char>,
    state: Seq<char>,
)
    requires
        base.len() == 0 || base.last() != '/',
        all_slashes(cut),
        !challenge.contains('&'),
        !state.contains('&'),
    ensures
        exists|query: Seq<char>|
            {
                &&& authorization_url(base + cut, challenge, state) == base + "/oauth/authorize?"@
                    + query
                &&& #[trigger] pieces(query, '&') == seq![
                    "response_type=code"@,
                    "client_id="@ + CLIENT_ID@,
                    "redirect_uri="@ + percent_encoded(encode_utf8(REDIRECT_URI@)),
                    "scope="@ + percent_encoded(encode_utf8(SCOPE@)),
                    "code_challenge="@ + challenge,
                    "code_challenge_method=S256"@,
                    "state="@ + state,
                    "id_token_add_organizations=true"@,
                    "codex_cli_simplified_flow=true"@,
                    "originator=zed"@,
                ]
            },
{
    reveal_strlit("response_type=code");
    reveal_strlit("client_id=");
    reveal_strlit("app_EMoamEEZ73f0CkXaXp7hrann");
    reveal_strlit("redirect_uri=");
    reveal_strlit("scope=");
    reveal_strlit("code_challenge=");
    reveal_strlit("code_challenge_method=S256");
    reveal_strlit("state=");
    reveal_strlit("id_token_add_organizations=true");
    reveal_strlit("codex_cli_simplified_flow=true");
    reveal_strlit("originator=zed");
    let none = Seq::<char>::empty();
    addresses_come_out_whole(base, cut);
    addresses_come_out_whole(base, none);
    assert(base + none == base);
    let h = base + "/oauth/authorize?"@;
    lemma_page_is_built_up(h, base, challenge, state);
    let c = '&';
    let redirect = percent_encoded(encode_utf8(REDIRECT_URI@));
    let scope = percent_encoded(encode_utf8(SCOPE@));
    lemma_percent_text_is_one_piece(encode_utf8(REDIRECT_URI@));
    lemma_percent_text_is_one_piece(encode_utf8(SCOPE@));
    lemma_prefixed("client_id="@, CLIENT_ID@, c);
    lemma_prefixed("redirect_uri="@, redirect, c);
    lemma_prefixed("scope="@, scope, c);
    lemma_prefixed("code_challenge="@, challenge, c);
    lemma_prefixed("state="@, state, c);
    let q0 = "response_type=code"@;
    let q1 = q0 + seq![c] + ("client_id="@ + CLIENT_ID@);
    let q2 = q1 + seq![c] + ("redirect_uri="@ + redirect);
    let q3 = q2 + seq![c] + ("scope="@ + scope);
    let q4 = q3 + seq![c] + ("code_challenge="@ + challenge);
    let q5 = q4 + seq![c] + "code_challenge_method=S256"@;
    let q6 = q5 + seq![c] + ("state="@ + state);
    let q7 = q6 + seq![c] + "id_token_add_organizations=true"@;
    let q8 = q7 + seq![c] + "codex_cli_simplified_flow=true"@;
    let q9 = q8 + seq![c] + "originator=zed"@;
    lemma_one_piece(q0, c);
    lemma_next_piece(q0, c, "client_id="@ + CLIENT_ID@);
    lemma_next_piece(q1, c, "redirect_uri="@ + redirect);
    lemma_next_piece(q2, c, "scope="@ + scope);
    lemma_next_piece(q3, c, "code_challenge="@ + challenge);
    lemma_next_piece(q4, c, "code_challenge_method=S256"@);
    lemma_next_piece(q5, c, "state="@ + state);
    lemma_next_piece(q6, c, "id_token_add_organizations=true"@);
    lemma_next_piece(q7, c, "codex_cli_simplified_flow=true"@);
    lemma_next_piece(q8, c, "originator=zed"@);
    assert(pieces(q9, c) == seq![
        q0,
        "client_id="@ + CLIENT_ID@,
        "redirect_uri="@ + redirect,
        "scope="@ + scope,
        "code_challenge="@ + challenge,
        "code_challenge_method=S256"@,
        "state="@ + state,
        "id_token_add_organizations=true"@,
        "codex_cli_simplified_flow=true"@,
        "originator=zed"@,
    ]);
}

/// Two pages differ in the challenge and the state alone, whatever characters these hold: around
/// them stands the same text. So two challenges never give one page.
pub proof fn pages_differ_in_challenge_and_state(
    auth_url: Seq<char>,
    c1: Seq<char>,
    s1: Seq<char>,
    c2: Seq<char>,
    s2: Seq<char>,
)
    ensures
        exists|before: Seq<char>, middle: Seq<char>, after: Seq<char>|
            authorization_url(auth_url, c1, s1) == #[trigger] (before + c1 + middle + s1 + after)
                && authorization_url(auth_url, c2, s2) == before + c2 + middle + s2 + after,
        authorization_url(auth_url, c1, s1) == authorization_url(auth_url, c2, s1) ==> c1 == c2,
        authorization_url(auth_url, c1, s1) == authorization_url(auth_url, c1, s2) ==> s1 == s2,
{
    reveal_strlit("zed");
    let none = Seq::<char>::empty();
    let plain = authorization_url(auth_url, none, none);
    let middle = "&code_challenge_method=S256&state="@;
    let end = "&id_token_add_organizations=true&codex_cli_simplified_flow=true&originator="@;
    let after = end + "zed"@;
    let before = plain.take(plain.len() - after.len() - middle.len());
    assert forall|c: Seq<char>, s: Seq<char>| #[trigger]
        authorization_url(auth_url, c, s) == before + c + middle + s + after by {
        let url = authorization_url(auth_url, c, s);
        let head = url.take(url.len() - after.len() - s.len() - middle.len() - c.len());
        assert(plain == before + none + middle + none + after);
        assert(head == before);
        assert(url == head + c + middle + s + after);
    }
    let u = before + c1 + middle + s1 + after;
    assert(authorization_url(auth_url, c1, s1) == u);
    if authorization_url(auth_url, c1, s1) == authorization_url(auth_url, c2, s1) {
        let v = before + c2 + middle + s1 + after;
        assert(u.len() == v.len());
        assert(u.subrange(before.len() as int, (before.len() + c1.len()) as int) == c1);
        assert(v.subrange(before.len() as int, (before.len() + c2.len()) as int) == c2);
    }
    if authorization_url(auth_url, c1, s1) == authorization_url(auth_url, c1, s2) {
        let v = before + c1 + middle + s2 + after;
        let at = (before + c1 + middle).len() as int;
        assert(u.subrange(at, at + s1.len()) == s1);
        assert(v.subrange(at, at + s2.len()) == s2);
    }
}

/// The tokens are handed out at the authorization server, whatever slashes its address ends in.
pub proof fn tokens_are_handed_out_at_the_server(base: Seq<char>, cut: Seq<char>)
    requires
        base.len() == 0 || base.last() != '/',
        all_slashes(cut),
    ensures
        token_endpoint(base + cut) == base + "/oauth/token"@,
{
    addresses_come_out_whole(base, cut);
}

/// The challenge, decoded, is the digest of the whole verifier.
pub proof fn the_challenge_is_the_digest(verifier: Seq<char>)
    ensures
        url_safe_decoded(challenge_of(verifier)) == Some(sha256(encode_utf8(verifier))),
{
    base64_decodes_what_it_encodes(sha256(encode_utf8(verifier)));
}

/// The form of an exchange holds the whole code and the whole verifier, and says what it asks for.
pub proof fn an_exchange_sends_code_and_verifier(code: Seq<char>, verifier: Seq<char>)
    ensures
        exchange_pairs(code, verifier).len() == 5,
        exchange_pairs(code, verifier)[0] == ("grant_type"@, "authorization_code"@),
        exchange_pairs(code, verifier)[1] == ("client_id"@, CLIENT_ID@),
        exchange_pairs(code, verifier)[2] == ("code"@, code),
        exchange_pairs(code, verifier)[3] == ("code_verifier"@, verifier),
        exchange_pairs(code, verifier)[4] == ("redirect_uri"@, REDIRECT_URI@),
{
}

/// The form of a refresh holds the whole refresh token, and says what it asks for.
pub proof fn a_refresh_sends_the_refresh_token(refresh_token: Seq<char>)
    ensures
        refresh_pairs(refresh_token).len() == 3,
        refresh_pairs(refresh_token)[0] == ("grant_type"@, "refresh_token"@),
        refresh_pairs(refresh_token)[1] == ("client_id"@, CLIENT_ID@),
        refresh_pairs(refresh_token)[2] == ("refresh_token"@, refresh_token),
{
}

/// A sign-in remembers its whole state and its whole verifier, whatever they are; its page is the
/// one for its challenge and this state, and without this very state no exchange is made.
pub proof fn sign_ins_remember_their_secrets(
    sign_in: SignIn,
    auth_url: Seq<char>,
    challenge: Seq<char>,
    verifier: Seq<char>,
    state: Seq<char>,
    callback: OAuthCallback,
    exchange: Result<SignInExchange, CodexError>,
)
    requires
        is_sign_in(sign_in, auth_url, challenge, verifier, state),
        is_called_back(sign_in, Ok::<OAuthCallback, CodexError>(callback), exchange),
    ensures
        sign_in.state@ == state,
        sign_in.verifier@ == verifier,
        sign_in.authorization_url@ == authorization_url(auth_url, challenge, state),
        sign_in.token_url@ == token_endpoint(auth_url),
        exchange is Ok <==> callback.state@ == state,
        exchange is Ok ==> exchange->Ok_0.request@.uri == token_endpoint(auth_url)
            && exchange->Ok_0.request@.method == "POST"@ && exchange->Ok_0.request@.headers == seq![
            ("Content-Type"@, "application/x-www-form-urlencoded"@),
        ],
{
}

/// A sign-in sends out, in the query of its page, the digest of the verifier that the exchange
/// sends later, and the state without which no exchange is made. The exchange goes to the same
/// server, with the code of the callback.
pub proof fn a_sign_in_proves_who_started_it(
    sign_in: SignIn,
    base: Seq<char>,
    cut: Seq<char>,
    verifier: Seq<char>,
    random: Seq<u8>,
    callback: OAuthCallback,
    exchange: Result<SignInExchange, CodexError>,
)
    requires
        base.len() == 0 || base.last() != '/',
        all_slashes(cut),
        is_sign_in(
            sign_in,
            base + cut,
            challenge_of(verifier),
            verifier,
            url_safe_base64(random),
        ),
        is_called_back(sign_in, Ok::<OAuthCallback, CodexError>(callback), exchange),
    ensures
        exists|query: Seq<char>|
            {
                &&& sign_in.authorization_url@ == base + "/oauth/authorize?"@ + query
                &&& #[trigger] pieces(query, '&').len() == 10
                &&& pieces(query, '&')[4] == "code_challenge="@ + url_safe_base64(
                    sha256(encode_utf8(verifier)),
                )
                &&& pieces(query, '&')[6] == "state="@ + url_safe_base64(random)
            },
        exchange is Ok <==> callback.state@ == url_safe_base64(random),
        exchange is Ok ==> {
            &&& exchange->Ok_0.request@.uri == base + "/oauth/token"@
            &&& exchange->Ok_0.request@.body == form_encoded(
                seq![
                    ("grant_type"@, "authorization_code"@),
                    ("client_id"@, CLIENT_ID@),
                    ("code"@, callback.code@),
                    ("code_verifier"@, verifier),
                    ("redirect_uri"@, REDIRECT_URI@),
                ],
            )
        },
        exchange is Err ==> exchange->Err_0 is StateMismatch,
{
    let challenge = url_safe_base64(sha256(encode_utf8(verifier)));
    let state = url_safe_base64(random);
    the_challenge_is_the_digest(verifier);
    base64_decodes_what_it_encodes(sha256(encode_utf8(verifier)));
    assert(challenge_of(verifier) == challenge);
    lemma_base64_is_one_piece(sha256(encode_utf8(verifier)));
    lemma_base64_is_one_piece(random);
    the_page_carries_challenge_and_state(base, cut, challenge, state);
    let query = choose|query: Seq<char>|
        {
            &&& sign_in.authorization_url@ == base + "/oauth/authorize?"@ + query
            &&& #[trigger] pieces(query, '&') == seq![
                "response_type=code"@,
                "client_id="@ + CLIENT_ID@,
                "redirect_uri="@ + percent_encoded(encode_utf8(REDIRECT_URI@)),
                "scope="@ + percent_encoded(encode_utf8(SCOPE@)),
                "code_challenge="@ + challenge,
                "code_challenge_method=S256"@,
                "state="@ + state,
                "id_token_add_organizations=true"@,
                "codex_cli_simplified_flow=true"@,
                "originator=zed"@,
            ]
        };
    assert(pieces(query, '&').len() == 10);
    tokens_are_handed_out_at_the_server(base, cut);
    assert(exchange_pairs(callback.code@, verifier) == seq![
        ("grant_type"@, "authorization_code"@),
        ("client_id"@, CLIENT_ID@),
        ("code"@, callback.code@),
        ("code_verifier"@, verifier),
        ("redirect_uri"@, REDIRECT_URI@),
    ]);
}

proof fn lemma_base64_is_one_piece(bytes: Seq<u8>)
    ensures
        !url_safe_base64(bytes).contains('&'),
{
    base64_text_is_url_safe(bytes);
    let text = url_safe_base64(bytes);
    if text.contains('&') {
        let i = text.index_of('&');
        assert(is_url_safe(text[i]));
    }
}

} // verus!
