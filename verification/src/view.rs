//! The panel in which the user signs in and out.

use crate::error::CodexError;
use crate::state::{State, StateView};
use vstd::prelude::*;

verus! {

/// What an item of the panel shows.
pub enum PanelItemView {
    Introduction,
    Loading,
    Connected,
    SignInButton,
    ApiKeyLink,
    Page(Seq<char>),
    CopyUrlButton(Seq<char>),
    CancelButton,
    SignOutButton,
    Error(Seq<char>),
}

/// An item of the panel.
pub enum PanelItem {
    /// What the provider is for.
    Introduction,
    /// The kept credentials are being looked up.
    Loading,
    /// Somebody is signed in.
    Connected,
    /// A click starts a sign-in.
    SignInButton,
    /// A click leads to the provider that works with an API key.
    ApiKeyLink,
    /// The page on which the user signs in, for a browser that did not open.
    Page(String),
    /// A click copies the address of that page.
    CopyUrlButton(String),
    /// A click calls off the sign-in.
    CancelButton,
    /// A click signs out.
    SignOutButton,
    /// What went wrong last.
    Error(String),
}

impl View for PanelItem {
    type V = PanelItemView;

    open spec fn view(&self) -> PanelItemView {
        match *self {
            PanelItem::Introduction => PanelItemView::Introduction,
            PanelItem::Loading => PanelItemView::Loading,
            PanelItem::Connected => PanelItemView::Connected,
            PanelItem::SignInButton => PanelItemView::SignInButton,
            PanelItem::ApiKeyLink => PanelItemView::ApiKeyLink,
            PanelItem::Page(url) => PanelItemView::Page(url@),
            PanelItem::CopyUrlButton(url) => PanelItemView::CopyUrlButton(url@),
            PanelItem::CancelButton => PanelItemView::CancelButton,
            PanelItem::SignOutButton => PanelItemView::SignOutButton,
            PanelItem::Error(words) => PanelItemView::Error(words@),
        }
    }
}

impl PanelItemView {
    /// The words on the item.
    pub open spec fn words(self) -> Seq<char> {
        match self {
            PanelItemView::Introduction =>
                "OpenAI Codex uses ChatGPT Plus/Pro OAuth and is separate from OpenAI Platform API keys."@,
            PanelItemView::Loading => "Loading credentials…"@,
            PanelItemView::Connected => "ChatGPT account connected"@,
            PanelItemView::SignInButton => "Sign in with ChatGPT"@,
            PanelItemView::ApiKeyLink =>
                "No ChatGPT subscription? Use the OpenAI provider with an API key."@,
            PanelItemView::CopyUrlButton(_) => "Copy URL"@,
            PanelItemView::CancelButton => "Cancel"@,
            PanelItemView::Page(_) =>
                "If your browser didn't open, copy this URL. For SSH sessions, run `ssh -L 1455:localhost:1455 host` first."@,
            PanelItemView::SignOutButton => "Sign Out"@,
            PanelItemView::Error(words) => words,
        }
    }
}

impl PanelItem {
    /// Gives the words on the item.
    pub fn label(&self) -> (r: String)
        ensures
            r@ == self@.words(),
    {
        match self {
            PanelItem::Introduction =>
                "OpenAI Codex uses ChatGPT Plus/Pro OAuth and is separate from OpenAI Platform API keys.".to_owned(),
            PanelItem::Loading => "Loading credentials…".to_owned(),
            PanelItem::Connected => "ChatGPT account connected".to_owned(),
            PanelItem::SignInButton => "Sign in with ChatGPT".to_owned(),
            PanelItem::ApiKeyLink =>
                "No ChatGPT subscription? Use the OpenAI provider with an API key.".to_owned(),
            PanelItem::CopyUrlButton(_) => "Copy URL".to_owned(),
            PanelItem::CancelButton => "Cancel".to_owned(),
            PanelItem::Page(_) =>
                "If your browser didn't open, copy this URL. For SSH sessions, run `ssh -L 1455:localhost:1455 host` first.".to_owned(),
            PanelItem::SignOutButton => "Sign Out".to_owned(),
            PanelItem::Error(words) => words.clone(),
        }
    }
}

/// One item, or none.
pub open spec fn item_if(shown: bool, item: PanelItemView) -> Seq<PanelItemView> {
    if shown {
        seq![item]
    } else {
        Seq::empty()
    }
}

/// The items of the panel, from top to bottom.
pub open spec fn panel(state: StateView, loading: bool, signing_in: bool) -> Seq<PanelItemView> {
    let signed_in = state.authenticated();
    let offered = !signed_in && !signing_in && state.auth_url is None;
    let under_way = state.auth_url is Some;
    let page = state.auth_url->Some_0;
    seq![PanelItemView::Introduction] + item_if(loading, PanelItemView::Loading) + item_if(
        signed_in,
        PanelItemView::Connected,
    ) + item_if(offered, PanelItemView::SignInButton) + item_if(
        offered,
        PanelItemView::ApiKeyLink,
    ) + item_if(under_way, PanelItemView::Page(page)) + item_if(
        under_way,
        PanelItemView::CopyUrlButton(page),
    ) + item_if(under_way, PanelItemView::CancelButton) + item_if(
        signed_in,
        PanelItemView::SignOutButton,
    ) + item_if(state.error is Some, PanelItemView::Error(state.error->Some_0))
}

/// What items show.
pub open spec fn item_views(items: Seq<PanelItem>) -> Seq<PanelItemView> {
    items.map_values(|item: PanelItem| item@)
}

/// What the panel is busy with.
pub struct ConfigurationView {
    /// The kept credentials are being looked up.
    pub loading: bool,
    /// A sign-in that was started here is under way.
    pub signing_in: bool,
}

/// Adds an item at the bottom.
fn add_item(items: &mut Vec<PanelItem>, item: PanelItem)
    ensures
        item_views(final(items)@) == item_views(old(items)@) + seq![item@],
{
    items.push(item);
    assert(item_views(items@) == item_views(old(items)@) + seq![item@]);
}

impl ConfigurationView {
    /// The panel as it opens: the kept credentials are being looked up.
    pub fn new() -> (r: Self)
        ensures
            r.loading,
            !r.signing_in,
    {
        ConfigurationView { loading: true, signing_in: false }
    }

    /// The look-up is over, whether it found anything or not.
    pub fn load_finished(&mut self)
        ensures
            !final(self).loading,
            final(self).signing_in == old(self).signing_in,
    {
        self.loading = false;
    }

    /// A sign-in was started here.
    pub fn sign_in_started(&mut self)
        ensures
            final(self).signing_in,
            final(self).loading == old(self).loading,
    {
        self.signing_in = true;
    }

    /// The sign-in is over. Where it failed, and was not called off, the state remembers why.
    pub fn sign_in_finished(&mut self, state: &mut State, outcome: &Result<(), CodexError>)
        ensures
            !final(self).signing_in,
            final(self).loading == old(self).loading,
            match *outcome {
                Ok(_) => *final(state) == *old(state),
                Err(error) => final(state)@ == old(state)@.after_failed_sign_in(error),
            },
    {
        if let Err(error) = outcome {
            state.sign_in_failed(error);
        }
        self.signing_in = false;
    }

    /// Lists the items of the panel, from top to bottom.
    pub fn render(&self, state: &State) -> (r: Vec<PanelItem>)
        ensures
            item_views(r@) == panel(state@, self.loading, self.signing_in),
    {
        let signed_in = state.is_authenticated();
        let mut items: Vec<PanelItem> = Vec::new();
        assert(item_views(items@) == Seq::<PanelItemView>::empty());
        add_item(&mut items, PanelItem::Introduction);
        if self.loading {
            add_item(&mut items, PanelItem::Loading);
        }
        if signed_in {
            add_item(&mut items, PanelItem::Connected);
        }
        if !signed_in && !self.signing_in && state.auth_url.is_none() {
            add_item(&mut items, PanelItem::SignInButton);
            add_item(&mut items, PanelItem::ApiKeyLink);
        }
        if let Some(url) = &state.auth_url {
            add_item(&mut items, PanelItem::Page(url.clone()));
            add_item(&mut items, PanelItem::CopyUrlButton(url.clone()));
            add_item(&mut items, PanelItem::CancelButton);
        }
        if signed_in {
            add_item(&mut items, PanelItem::SignOutButton);
        }
        if let Some(words) = &state.error {
            add_item(&mut items, PanelItem::Error(words.clone()));
        }
        assert(item_views(items@) == panel(state@, self.loading, self.signing_in));
        items
    }
}

} // verus!
