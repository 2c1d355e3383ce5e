//! What people get to see.

use crate::redaction::{
    decimal, digit, laid_out_credentials, laid_out_pkce, laid_out_response, quoted,
    shown_credentials, shown_pkce, shown_response,
};
use crate::state::StateView;
use crate::view::{item_if, item_views, panel, PanelItem, PanelItemView};
use vstd::prelude::*;

verus! {

/// The number that decimal digits stand for.
pub open spec fn number_of(digits: Seq<char>) -> int
    decreases digits.len(),
{
    if digits.len() == 0 {
        0
    } else {
        10 * number_of(digits.drop_last()) + (digits.last() as int - '0' as int)
    }
}

/// The digits of a number stand for the number, and there is no zero in front of them.
pub proof fn digits_stand_for_their_number(value: nat)
    ensures
        number_of(decimal(value)) == value,
        decimal(value).len() > 0,
        forall|i: int|
            0 <= i < decimal(value).len() ==> '0' <= #[trigger] decimal(value)[i] <= '9',
        decimal(value).len() > 1 ==> decimal(value)[0] != '0',
    decreases value,
{
    let digits = decimal(value);
    if value < 10 {
        assert(digits.drop_last() == Seq::<char>::empty());
        assert(digits.last() == digit(value));
        assert(number_of(digits.drop_last()) == 0);
    } else {
        let tens = decimal(value / 10);
        digits_stand_for_their_number(value / 10);
        assert(digits.drop_last() == tens);
        assert(digits.last() == digit(value % 10));
        assert forall|i: int| 0 <= i < digits.len() implies '0' <= #[trigger] digits[i] <= '9' by {
            if i < tens.len() {
                assert(digits[i] == tens[i]);
            }
        }
        assert(digits[0] == tens[0]);
        if tens.len() == 1 {
            assert(number_of(tens.drop_last()) == 0) by {
                assert(tens.drop_last() == Seq::<char>::empty());
            }
            assert(tens.last() == tens[0]);
        }
    }
}

/// Debug output of credentials shows the whole end and the whole account, and for each token the one
/// word, in both forms.
pub proof fn debug_output_of_credentials_is_whole(expires_at_ms: u64, account: Seq<char>)
    ensures
        ({
            let start =
                "OpenAiCodexCredentials { access_token: \"[redacted]\", refresh_token: \"[redacted]\", expires_at_ms: "@;
            let digits = decimal(expires_at_ms as nat);
            &&& shown_credentials(expires_at_ms, Some(account)) == start + digits
                + ", account_id: "@ + ("Some("@ + quoted(account) + ")"@) + " }"@
            &&& shown_credentials(expires_at_ms, None) == start + digits + ", account_id: "@
                + "None"@ + " }"@
        }),
        ({
            let start =
                "OpenAiCodexCredentials {\n    access_token: \"[redacted]\",\n    refresh_token: \"[redacted]\",\n    expires_at_ms: "@;
            let digits = decimal(expires_at_ms as nat);
            &&& laid_out_credentials(expires_at_ms, Some(account)) == start + digits
                + ",\n    account_id: "@ + ("Some(\n        "@ + quoted(account) + ",\n    )"@)
                + ",\n}"@
            &&& laid_out_credentials(expires_at_ms, None) == start + digits
                + ",\n    account_id: "@ + "None"@ + ",\n}"@
        }),
        shown_pkce(account) == "PkceChallenge { verifier: \"[redacted]\", challenge: "@ + quoted(
            account,
        ) + " }"@,
        laid_out_pkce(account) == "PkceChallenge {\n    verifier: \"[redacted]\",\n    challenge: "@
            + quoted(account) + ",\n}"@,
{
}

/// Debug output of a token response shows the whole lifetime, and for each token the one word or
/// that it is missing, in both forms.
pub proof fn debug_output_of_a_response_is_whole(seconds: u64)
    ensures
        ({
            let start = "TokenResponse { access_token: \"[redacted]\", refresh_token: "@;
            let there = "Some(\"[redacted]\")"@;
            let digits = decimal(seconds as nat);
            &&& shown_response(true, Some(seconds), false) == start + there + ", expires_in: "@ + (
            "Some("@ + digits + ")"@) + ", id_token: "@ + "None"@ + " }"@
            &&& shown_response(false, Some(seconds), true) == start + "None"@ + ", expires_in: "@ + (
            "Some("@ + digits + ")"@) + ", id_token: "@ + there + " }"@
            &&& shown_response(true, None, true) == start + there + ", expires_in: "@ + "None"@
                + ", id_token: "@ + there + " }"@
            &&& shown_response(false, None, false) == start + "None"@ + ", expires_in: "@ + "None"@
                + ", id_token: "@ + "None"@ + " }"@
        }),
        ({
            let start = "TokenResponse {\n    access_token: \"[redacted]\",\n    refresh_token: "@;
            let there = "Some(\n        \"[redacted]\",\n    )"@;
            let digits = decimal(seconds as nat);
            let lifetime = ",\n    expires_in: "@;
            let id = ",\n    id_token: "@;
            let some = "Some(\n        "@ + digits + ",\n    )"@;
            &&& laid_out_response(true, Some(seconds), false) == start + there + lifetime + some + id
                + "None"@ + ",\n}"@
            &&& laid_out_response(false, Some(seconds), true) == start + "None"@ + lifetime + some
                + id + there + ",\n}"@
            &&& laid_out_response(true, None, true) == start + there + lifetime + "None"@ + id
                + there + ",\n}"@
            &&& laid_out_response(false, None, false) == start + "None"@ + lifetime + "None"@ + id
                + "None"@ + ",\n}"@
        }),
{
}

/// An item that shows an address or an error shows it whole.
pub proof fn items_show_what_they_hold(text: String)
    ensures
        PanelItem::Error(text)@.words() == text@,
        PanelItem::Page(text)@ == PanelItemView::Page(text@),
        PanelItem::CopyUrlButton(text)@ == PanelItemView::CopyUrlButton(text@),
        PanelItem::Error(text)@ == PanelItemView::Error(text@),
{
}

/// A list of items shows each of them in its place.
pub proof fn lists_show_every_item(items: Seq<PanelItem>, i: int)
    requires
        0 <= i < items.len(),
    ensures
        item_views(items).len() == items.len(),
        item_views(items)[i] == items[i]@,
{
}

/// The place of an item in the panel, from top to bottom.
pub open spec fn place(item: PanelItemView) -> int {
    match item {
        PanelItemView::Introduction => 0,
        PanelItemView::Loading => 1,
        PanelItemView::Connected => 2,
        PanelItemView::SignInButton => 3,
        PanelItemView::ApiKeyLink => 4,
        PanelItemView::Page(_) => 5,
        PanelItemView::CopyUrlButton(_) => 6,
        PanelItemView::CancelButton => 7,
        PanelItemView::SignOutButton => 8,
        PanelItemView::Error(_) => 9,
    }
}

/// The items stand in their places, none twice, and none behind this place.
pub open spec fn in_order(items: Seq<PanelItemView>, last: int) -> bool {
    &&& forall|i: int, j: int|
        0 <= i < j < items.len() ==> place(#[trigger] items[i]) < place(#[trigger] items[j])
    &&& forall|i: int| 0 <= i < items.len() ==> place(#[trigger] items[i]) <= last
}

proof fn lemma_in_order(items: Seq<PanelItemView>, shown: bool, item: PanelItemView, last: int)
    requires
        in_order(items, last),
        last < place(item),
    ensures
        in_order(items + item_if(shown, item), place(item)),
{
    let more = items + item_if(shown, item);
    assert forall|i: int, j: int| 0 <= i < j < more.len() implies place(#[trigger] more[i]) < place(
        #[trigger] more[j],
    ) by {
        assert(more[i] == items[i]);
        if j < items.len() {
            assert(more[j] == items[j]);
        }
    }
    assert forall|i: int| 0 <= i < more.len() implies place(#[trigger] more[i]) <= place(item) by {
        if i < items.len() {
            assert(more[i] == items[i]);
        }
    }
}

/// The items of the panel stand in their order from top to bottom, and none stands there twice.
pub proof fn the_panel_is_in_order(state: StateView, loading: bool, signing_in: bool)
    ensures
        in_order(panel(state, loading, signing_in), 9),
        panel(state, loading, signing_in).len() > 0,
        panel(state, loading, signing_in)[0] == PanelItemView::Introduction,
{
    let signed_in = state.authenticated();
    let offered = !signed_in && !signing_in && state.auth_url is None;
    let under_way = state.auth_url is Some;
    let page = PanelItemView::Page(state.auth_url->Some_0);
    let copy = PanelItemView::CopyUrlButton(state.auth_url->Some_0);
    let error = PanelItemView::Error(state.error->Some_0);
    let p0 = seq![PanelItemView::Introduction];
    let p1 = p0 + item_if(loading, PanelItemView::Loading);
    let p2 = p1 + item_if(signed_in, PanelItemView::Connected);
    let p3 = p2 + item_if(offered, PanelItemView::SignInButton);
    let p4 = p3 + item_if(offered, PanelItemView::ApiKeyLink);
    let p5 = p4 + item_if(under_way, page);
    let p6 = p5 + item_if(under_way, copy);
    let p7 = p6 + item_if(under_way, PanelItemView::CancelButton);
    let p8 = p7 + item_if(signed_in, PanelItemView::SignOutButton);
    assert(in_order(p0, 0));
    lemma_in_order(p0, loading, PanelItemView::Loading, 0);
    lemma_in_order(p1, signed_in, PanelItemView::Connected, 1);
    lemma_in_order(p2, offered, PanelItemView::SignInButton, 2);
    lemma_in_order(p3, offered, PanelItemView::ApiKeyLink, 3);
    lemma_in_order(p4, under_way, page, 4);
    lemma_in_order(p5, under_way, copy, 5);
    lemma_in_order(p6, under_way, PanelItemView::CancelButton, 6);
    lemma_in_order(p7, signed_in, PanelItemView::SignOutButton, 7);
    lemma_in_order(p8, state.error is Some, error, 8);
    assert(panel(state, loading, signing_in)[0] == p0[0]);
}

} // verus!
