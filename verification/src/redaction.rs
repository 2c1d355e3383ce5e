//! Debug output in which no token can be read.

use crate::credentials::{OpenAiCodexCredentials, TokenResponse};
use crate::oauth::PkceChallenge;
use crate::text::optional_text;
use vstd::prelude::*;

verus! {

/// The decimal digit for a number below ten.
pub open spec fn digit(value: nat) -> char {
    ('0' as int + value) as char
}

/// The number in decimal digits.
pub open spec fn decimal(value: nat) -> Seq<char>
    decreases value,
{
    if value < 10 {
        seq![digit(value)]
    } else {
        decimal(value / 10).push(digit(value % 10))
    }
}

/// The text in quotes, with what cannot stand in quotes escaped, as debug output shows it.
pub uninterp spec fn quoted(text: Seq<char>) -> Seq<char>;

/// An optional text as debug output shows it.
pub open spec fn shown_text(text: Option<Seq<char>>) -> Seq<char> {
    match text {
        Some(text) => "Some("@ + quoted(text) + ")"@,
        None => "None"@,
    }
}

/// An optional number as debug output shows it.
pub open spec fn shown_number(number: Option<u64>) -> Seq<char> {
    match number {
        Some(number) => "Some("@ + decimal(number as nat) + ")"@,
        None => "None"@,
    }
}

/// An optional secret as debug output shows it: only whether it is there.
pub open spec fn shown_secret(present: bool) -> Seq<char> {
    if present {
        "Some(\"[redacted]\")"@
    } else {
        "None"@
    }
}

/// Debug output of credentials with this end and this account.
pub open spec fn shown_credentials(expires_at_ms: u64, account_id: Option<Seq<char>>) -> Seq<char> {
    "OpenAiCodexCredentials { access_token: \"[redacted]\", refresh_token: \"[redacted]\", expires_at_ms: "@
        + decimal(expires_at_ms as nat) + ", account_id: "@ + shown_text(account_id) + " }"@
}

/// Debug output of a token response with this lifetime, which has or lacks the optional tokens.
pub open spec fn shown_response(
    has_refresh_token: bool,
    expires_in: Option<u64>,
    has_id_token: bool,
) -> Seq<char> {
    "TokenResponse { access_token: \"[redacted]\", refresh_token: "@ + shown_secret(
        has_refresh_token,
    ) + ", expires_in: "@ + shown_number(expires_in) + ", id_token: "@ + shown_secret(has_id_token)
        + " }"@
}

/// An optional text as a field of debug output on many lines.
pub open spec fn laid_out_text(text: Option<Seq<char>>) -> Seq<char> {
    match text {
        Some(text) => "Some(\n        "@ + quoted(text) + ",\n    )"@,
        None => "None"@,
    }
}

/// An optional number as a field of debug output on many lines.
pub open spec fn laid_out_number(number: Option<u64>) -> Seq<char> {
    match number {
        Some(number) => "Some(\n        "@ + decimal(number as nat) + ",\n    )"@,
        None => "None"@,
    }
}

/// An optional secret as a field of debug output on many lines: only whether it is there.
pub open spec fn laid_out_secret(present: bool) -> Seq<char> {
    if present {
        "Some(\n        \"[redacted]\",\n    )"@
    } else {
        "None"@
    }
}

/// Debug output on many lines of credentials with this end and this account.
pub open spec fn laid_out_credentials(expires_at_ms: u64, account_id: Option<Seq<char>>) -> Seq<
    char,
> {
    "OpenAiCodexCredentials {\n    access_token: \"[redacted]\",\n    refresh_token: \"[redacted]\",\n    expires_at_ms: "@
        + decimal(expires_at_ms as nat) + ",\n    account_id: "@ + laid_out_text(account_id)
        + ",\n}"@
}

/// Debug output on many lines of a token response with this lifetime, which has or lacks the
/// optional tokens.
pub open spec fn laid_out_response(
    has_refresh_token: bool,
    expires_in: Option<u64>,
    has_id_token: bool,
) -> Seq<char> {
    "TokenResponse {\n    access_token: \"[redacted]\",\n    refresh_token: "@ + laid_out_secret(
        has_refresh_token,
    ) + ",\n    expires_in: "@ + laid_out_number(expires_in) + ",\n    id_token: "@
        + laid_out_secret(has_id_token) + ",\n}"@
}

/// Debug output of a secret that is announced by this challenge.
pub open spec fn shown_pkce(challenge: Seq<char>) -> Seq<char> {
    "PkceChallenge { verifier: \"[redacted]\", challenge: "@ + quoted(challenge) + " }"@
}

/// Debug output on many lines of a secret that is announced by this challenge.
pub open spec fn laid_out_pkce(challenge: Seq<char>) -> Seq<char> {
    "PkceChallenge {\n    verifier: \"[redacted]\",\n    challenge: "@ + quoted(challenge) + ",\n}"@
}

/// Quotes text by the `Debug` of `str` through `format!`: the contract names the outcome.
#[verifier::external_body]
fn quote(text: &str) -> (r: String)
    ensures
        r@ == quoted(text@),
{
    format!("{text:?}")
}

/// The decimal digit for a number below ten.
fn digit_text(value: u64) -> (r: &'static str)
    requires
        value < 10,
    ensures
        r@ == seq![digit(value as nat)],
{
    proof {
        reveal_strlit("0");
        reveal_strlit("1");
        reveal_strlit("2");
        reveal_strlit("3");
        reveal_strlit("4");
        reveal_strlit("5");
        reveal_strlit("6");
        reveal_strlit("7");
        reveal_strlit("8");
        reveal_strlit("9");
    }
    let text = match value {
        0 => "0",
        1 => "1",
        2 => "2",
        3 => "3",
        4 => "4",
        5 => "5",
        6 => "6",
        7 => "7",
        8 => "8",
        _ => "9",
    };
    assert(text@ == seq![digit(value as nat)]);
    text
}

/// Writes a number in decimal digits.
pub fn decimal_text(value: u64) -> (r: String)
    ensures
        r@ == decimal(value as nat),
    decreases value,
{
    if value < 10 {
        digit_text(value).to_owned()
    } else {
        let text = decimal_text(value / 10).concat(digit_text(value % 10));
        assert(text@ == decimal((value / 10) as nat).push(digit((value % 10) as nat)));
        text
    }
}

fn show_text(text: &Option<String>) -> (r: String)
    ensures
        r@ == shown_text(optional_text(*text)),
{
    match text {
        Some(text) => "Some(".to_owned().concat(quote(text.as_str()).as_str()).concat(")"),
        None => "None".to_owned(),
    }
}

fn show_number(number: Option<u64>) -> (r: String)
    ensures
        r@ == shown_number(number),
{
    match number {
        Some(number) => "Some(".to_owned().concat(decimal_text(number).as_str()).concat(")"),
        None => "None".to_owned(),
    }
}

fn show_secret(present: bool) -> (r: &'static str)
    ensures
        r@ == shown_secret(present),
{
    if present {
        "Some(\"[redacted]\")"
    } else {
        "None"
    }
}

fn lay_out_text(text: &Option<String>) -> (r: String)
    ensures
        r@ == laid_out_text(optional_text(*text)),
{
    match text {
        Some(text) => "Some(\n        ".to_owned().concat(quote(text.as_str()).as_str()).concat(
            ",\n    )",
        ),
        None => "None".to_owned(),
    }
}

fn lay_out_number(number: Option<u64>) -> (r: String)
    ensures
        r@ == laid_out_number(number),
{
    match number {
        Some(number) => "Some(\n        ".to_owned().concat(decimal_text(number).as_str()).concat(
            ",\n    )",
        ),
        None => "None".to_owned(),
    }
}

fn lay_out_secret(present: bool) -> (r: &'static str)
    ensures
        r@ == laid_out_secret(present),
{
    if present {
        "Some(\n        \"[redacted]\",\n    )"
    } else {
        "None"
    }
}

impl OpenAiCodexCredentials {
    /// Debug output without the tokens.
    pub fn debug_text(&self) -> (r: String)
        ensures
            r@ == shown_credentials(self@.expires_at_ms, self@.account_id),
    {
        "OpenAiCodexCredentials { access_token: \"[redacted]\", refresh_token: \"[redacted]\", expires_at_ms: ".to_owned().concat(
            decimal_text(self.expires_at_ms).as_str(),
        ).concat(", account_id: ").concat(show_text(&self.account_id).as_str()).concat(" }")
    }

    /// Debug output on many lines, without the tokens.
    pub fn debug_lines(&self) -> (r: String)
        ensures
            r@ == laid_out_credentials(self@.expires_at_ms, self@.account_id),
    {
        "OpenAiCodexCredentials {\n    access_token: \"[redacted]\",\n    refresh_token: \"[redacted]\",\n    expires_at_ms: ".to_owned().concat(
            decimal_text(self.expires_at_ms).as_str(),
        ).concat(",\n    account_id: ").concat(lay_out_text(&self.account_id).as_str()).concat(
            ",\n}",
        )
    }
}

impl TokenResponse {
    /// Debug output without the tokens.
    pub fn debug_text(&self) -> (r: String)
        ensures
            r@ == shown_response(
                self@.refresh_token is Some,
                self@.expires_in,
                self@.id_token is Some,
            ),
    {
        "TokenResponse { access_token: \"[redacted]\", refresh_token: ".to_owned().concat(
            show_secret(self.refresh_token.is_some()),
        ).concat(", expires_in: ").concat(show_number(self.expires_in).as_str()).concat(
            ", id_token: ",
        ).concat(show_secret(self.id_token.is_some())).concat(" }")
    }

    /// Debug output on many lines, without the tokens.
    pub fn debug_lines(&self) -> (r: String)
        ensures
            r@ == laid_out_response(
                self@.refresh_token is Some,
                self@.expires_in,
                self@.id_token is Some,
            ),
    {
        "TokenResponse {\n    access_token: \"[redacted]\",\n    refresh_token: ".to_owned().concat(
            lay_out_secret(self.refresh_token.is_some()),
        ).concat(",\n    expires_in: ").concat(lay_out_number(self.expires_in).as_str()).concat(
            ",\n    id_token: ",
        ).concat(lay_out_secret(self.id_token.is_some())).concat(",\n}")
    }
}

impl PkceChallenge {
    /// Debug output without the secret.
    pub fn debug_text(&self) -> (r: String)
        ensures
            r@ == shown_pkce(self.challenge@),
    {
        "PkceChallenge { verifier: \"[redacted]\", challenge: ".to_owned().concat(
            quote(self.challenge.as_str()).as_str(),
        ).concat(" }")
    }

    /// Debug output on many lines, without the secret.
    pub fn debug_lines(&self) -> (r: String)
        ensures
            r@ == laid_out_pkce(self.challenge@),
    {
        "PkceChallenge {\n    verifier: \"[redacted]\",\n    challenge: ".to_owned().concat(
            quote(self.challenge.as_str()).as_str(),
        ).concat(",\n}")
    }
}

} // verus!
