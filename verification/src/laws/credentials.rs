//! How tokens become credentials, and which account they name.

use super::text::second_piece_stands_between_marks;
use crate::clock::epoch_millis;
use crate::credentials::{
    account_id_in, account_id_in_jwt, credentials_of, credentials_with, expiry, member_text,
    CredentialsView, TokenResponseView,
};
use crate::encoding::{
    base64_decodes_what_it_encodes, base64_text_is_url_safe, is_url_safe, url_safe_base64,
    url_safe_decoded,
};
use crate::json::{json_document, JsonTree};
use vstd::prelude::*;

verus! {

/// The text under a name is that of the member with this name, and of no other.
pub proof fn members_are_found_by_name(
    members: Map<Seq<char>, JsonTree>,
    name: Seq<char>,
    text: Seq<char>,
    other: Seq<char>,
    value: JsonTree,
)
    requires
        other != name,
    ensures
        member_text(JsonTree::Record(members.insert(name, JsonTree::Text(text))), name) == Some(
            text,
        ),
        member_text(JsonTree::Record(members.remove(name)), name) is None,
        member_text(JsonTree::Record(members.insert(name, JsonTree::Scalar)), name) is None,
        member_text(JsonTree::Record(members.insert(other, value)), name) == member_text(
            JsonTree::Record(members),
            name,
        ),
        member_text(JsonTree::Scalar, name) is None,
        member_text(JsonTree::Text(text), name) is None,
{
}

/// The names of the claims that can tell the account are four.
proof fn lemma_claims_differ()
    ensures
        "chatgpt_account_id"@ != "https://api.openai.com/auth.chatgpt_account_id"@,
        "chatgpt_account_id"@ != "https://api.openai.com/auth"@,
        "chatgpt_account_id"@ != "organizations"@,
        "https://api.openai.com/auth.chatgpt_account_id"@ != "https://api.openai.com/auth"@,
        "https://api.openai.com/auth.chatgpt_account_id"@ != "organizations"@,
        "https://api.openai.com/auth"@ != "organizations"@,
{
    reveal_strlit("chatgpt_account_id");
    reveal_strlit("https://api.openai.com/auth.chatgpt_account_id");
    reveal_strlit("https://api.openai.com/auth");
    reveal_strlit("organizations");
    assert("chatgpt_account_id"@.len() == 18);
    assert("https://api.openai.com/auth.chatgpt_account_id"@.len() == 46);
    assert("https://api.openai.com/auth"@.len() == 27);
    assert("organizations"@.len() == 13);
}

/// A text under the direct name is the account, whatever else the claims hold.
pub proof fn the_direct_claim_names_the_account(
    claims: Map<Seq<char>, JsonTree>,
    account: Seq<char>,
)
    ensures
        account_id_in(
            JsonTree::Record(claims.insert("chatgpt_account_id"@, JsonTree::Text(account))),
        ) == Some(account),
{
}

/// Without a text under the direct name, one under the dotted name is the account, whatever else
/// the claims hold.
pub proof fn the_dotted_claim_names_the_account(
    claims: Map<Seq<char>, JsonTree>,
    account: Seq<char>,
)
    requires
        member_text(JsonTree::Record(claims), "chatgpt_account_id"@) is None,
    ensures
        account_id_in(
            JsonTree::Record(
                claims.insert(
                    "https://api.openai.com/auth.chatgpt_account_id"@,
                    JsonTree::Text(account),
                ),
            ),
        ) == Some(account),
{
    lemma_claims_differ();
}

/// Without either, one inside the claim `https://api.openai.com/auth` is the account, whatever else
/// that claim and the others hold.
pub proof fn the_nested_claim_names_the_account(
    claims: Map<Seq<char>, JsonTree>,
    auth: Map<Seq<char>, JsonTree>,
    account: Seq<char>,
)
    requires
        member_text(JsonTree::Record(claims), "chatgpt_account_id"@) is None,
        member_text(
            JsonTree::Record(claims),
            "https://api.openai.com/auth.chatgpt_account_id"@,
        ) is None,
    ensures
        account_id_in(
            JsonTree::Record(
                claims.insert(
                    "https://api.openai.com/auth"@,
                    JsonTree::Record(
                        auth.insert("chatgpt_account_id"@, JsonTree::Text(account)),
                    ),
                ),
            ),
        ) == Some(account),
{
    lemma_claims_differ();
}

/// The claims name no account directly, under the dotted name or inside
/// `https://api.openai.com/auth`.
pub open spec fn names_no_account(claims: Map<Seq<char>, JsonTree>) -> bool {
    &&& member_text(JsonTree::Record(claims), "chatgpt_account_id"@) is None
    &&& member_text(
        JsonTree::Record(claims),
        "https://api.openai.com/auth.chatgpt_account_id"@,
    ) is None
    &&& claims.dom().contains("https://api.openai.com/auth"@) ==> member_text(
        claims["https://api.openai.com/auth"@],
        "chatgpt_account_id"@,
    ) is None
}

/// Where nothing else names an account, it is the text of the member `id` of the first
/// organization, whatever other members that organization, the further organizations and the claims
/// have; and there is none where that text is missing.
pub proof fn the_first_organization_names_the_account(
    claims: Map<Seq<char>, JsonTree>,
    organization: Map<Seq<char>, JsonTree>,
    others: Seq<JsonTree>,
    account: Seq<char>,
)
    requires
        names_no_account(claims),
    ensures
        ({
            let first = JsonTree::Record(organization.insert("id"@, JsonTree::Text(account)));
            account_id_in(
                JsonTree::Record(
                    claims.insert("organizations"@, JsonTree::List(seq![first] + others)),
                ),
            ) == Some(account)
        }),
        ({
            let first = JsonTree::Record(organization.remove("id"@));
            account_id_in(
                JsonTree::Record(
                    claims.insert("organizations"@, JsonTree::List(seq![first] + others)),
                ),
            ) is None
        }),
        ({
            let first = JsonTree::Record(organization.insert("id"@, JsonTree::Scalar));
            account_id_in(
                JsonTree::Record(
                    claims.insert("organizations"@, JsonTree::List(seq![first] + others)),
                ),
            ) is None
        }),
        account_id_in(
            JsonTree::Record(claims.insert("organizations"@, JsonTree::List(Seq::empty()))),
        ) is None,
        account_id_in(JsonTree::Record(claims.insert("organizations"@, JsonTree::Scalar))) is None,
        account_id_in(JsonTree::Record(claims.remove("organizations"@))) is None,
{
    lemma_claims_differ();
    let with_id = JsonTree::Record(organization.insert("id"@, JsonTree::Text(account)));
    let without_id = JsonTree::Record(organization.remove("id"@));
    let with_scalar = JsonTree::Record(organization.insert("id"@, JsonTree::Scalar));
    assert((seq![with_id] + others)[0] == with_id);
    assert((seq![without_id] + others)[0] == without_id);
    assert((seq![with_scalar] + others)[0] == with_scalar);
}

/// No other claim has a say in the account, and what is no record of claims names none.
pub proof fn other_claims_have_no_say(
    claims: Map<Seq<char>, JsonTree>,
    name: Seq<char>,
    value: JsonTree,
    text: Seq<char>,
    items: Seq<JsonTree>,
)
    requires
        name != "chatgpt_account_id"@,
        name != "https://api.openai.com/auth.chatgpt_account_id"@,
        name != "https://api.openai.com/auth"@,
        name != "organizations"@,
    ensures
        account_id_in(JsonTree::Record(claims.insert(name, value))) == account_id_in(
            JsonTree::Record(claims),
        ),
        account_id_in(JsonTree::Scalar) is None,
        account_id_in(JsonTree::Text(text)) is None,
        account_id_in(JsonTree::List(items)) is None,
{
}

/// The claims of a token are the document in its second part, whatever stands in the others. A
/// token whose second part is missing or is no base64 text names no account.
pub proof fn claims_stand_in_the_second_part(
    header: Seq<char>,
    document: Seq<u8>,
    signature: Seq<char>,
    payload: Seq<char>,
)
    requires
        !header.contains('.'),
        !payload.contains('.'),
        forall|bytes: Seq<u8>| #[trigger] url_safe_base64(bytes) != payload,
    ensures
        ({
            let named = match json_document(document) {
                Some(claims) => account_id_in(claims),
                None => None,
            };
            let body = url_safe_base64(document);
            &&& account_id_in_jwt(header + seq!['.'] + body + seq!['.'] + signature) == named
            &&& account_id_in_jwt(header + seq!['.'] + body) == named
        }),
        account_id_in_jwt(header) is None,
        account_id_in_jwt(header + seq!['.'] + payload + seq!['.'] + signature) is None,
{
    let body = url_safe_base64(document);
    base64_text_is_url_safe(document);
    if body.contains('.') {
        let i = body.index_of('.');
        assert(is_url_safe(body[i]));
    }
    base64_decodes_what_it_encodes(document);
    second_piece_stands_between_marks(header, '.', body, signature);
    second_piece_stands_between_marks(header, '.', payload, signature);
    assert(url_safe_decoded(payload) is None);
}

/// A token ends as many milliseconds after it was made as it lives, an hour where that is not told,
/// or at the largest number where that would be passed.
pub proof fn tokens_end_when_their_life_is_over(now_ms: u64, seconds: u64)
    ensures
        now_ms + seconds * 1000 <= u64::MAX ==> expiry(now_ms, Some(seconds)) == now_ms + seconds
            * 1000,
        now_ms + seconds * 1000 > u64::MAX ==> expiry(now_ms, Some(seconds)) == u64::MAX,
        now_ms + 3_600_000 <= u64::MAX ==> expiry(now_ms, None) == now_ms + 3_600_000,
        now_ms + 3_600_000 > u64::MAX ==> expiry(now_ms, None) == u64::MAX,
{
}

/// The clock's milliseconds come out as they are as long as they fit, and by their low bits
/// otherwise; a clock before 1970 counts as its start.
pub proof fn the_clock_is_taken_as_it_is(millis: u128, rounds: u128)
    ensures
        millis <= u64::MAX ==> epoch_millis(Some(millis)) == millis,
        millis <= u64::MAX && rounds * 0x1_0000_0000_0000_0000 + millis <= u128::MAX
            ==> epoch_millis(Some((rounds * 0x1_0000_0000_0000_0000 + millis) as u128)) == millis,
        epoch_millis(None) == 0,
{
}

/// Credentials hold the whole access token of the response. Their refresh token is that of the
/// response, or else the earlier one, and there are none without either. Their account is that of
/// the id token, or else of the access token, or else the earlier one.
pub proof fn credentials_hold_what_the_response_brings(
    response: TokenResponseView,
    previous: Option<CredentialsView>,
    now_ms: u64,
    id_account: Option<Seq<char>>,
    access_account: Option<Seq<char>>,
)
    ensures
        ({
            let made = credentials_with(response, previous, now_ms, id_account, access_account);
            &&& made is None <==> response.refresh_token is None && previous is None
            &&& made is Some ==> {
                &&& made->Some_0.access_token == response.access_token
                &&& response.refresh_token is Some ==> Some(made->Some_0.refresh_token)
                    == response.refresh_token
                &&& response.refresh_token is None ==> made->Some_0.refresh_token
                    == previous->Some_0.refresh_token
                &&& id_account is Some ==> made->Some_0.account_id == id_account
                &&& id_account is None && access_account is Some ==> made->Some_0.account_id
                    == access_account
                &&& id_account is None && access_account is None && previous is Some
                    ==> made->Some_0.account_id == previous->Some_0.account_id
                &&& id_account is None && access_account is None && previous is None
                    ==> made->Some_0.account_id is None
                &&& made->Some_0.expires_at_ms == expiry(now_ms, response.expires_in)
            }
        }),
{
}

/// The accounts that count are those that the response's own tokens name.
pub proof fn accounts_are_read_from_the_tokens(
    response: TokenResponseView,
    previous: Option<CredentialsView>,
    now_ms: u64,
)
    requires
        response.refresh_token is Some || previous is Some,
    ensures
        ({
            let account_id = credentials_of(response, previous, now_ms)->Some_0.account_id;
            let id_account = if response.id_token is Some {
                account_id_in_jwt(response.id_token->Some_0)
            } else {
                None
            };
            let access_account = account_id_in_jwt(response.access_token);
            &&& id_account is Some ==> account_id == id_account
            &&& id_account is None && access_account is Some ==> account_id == access_account
            &&& id_account is None && access_account is None && previous is Some ==> account_id
                == previous->Some_0.account_id
            &&& id_account is None && access_account is None && previous is None
                ==> account_id is None
        }),
{
}

} // verus!
