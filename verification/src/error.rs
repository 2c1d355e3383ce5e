//! What can go wrong, and the words in which it is told.

use crate::redaction::{decimal, decimal_text};
use vstd::prelude::*;

verus! {

/// Why a sign-in, a token or a request failed.
#[derive(Debug)]
pub enum CodexError {
    /// Nobody is signed in.
    SignInRequired,
    /// The credentials do not tell the ChatGPT account.
    AccountUnknown,
    /// What is stored are no credentials. Only the place is told, nothing of what stands there.
    InvalidCredentials { line: u64, column: u64 },
    /// The token endpoint's answer holds no tokens. Only the place is told.
    InvalidTokenResponse { line: u64, column: u64 },
    /// The refresh token is no longer valid.
    SignInExpired,
    /// A value cannot stand in a header.
    InvalidHeader,
    /// A request did not get through; the text says why.
    Transport(String),
    /// The callback brought back another state than the one that was sent out.
    StateMismatch,
    /// Neither the token response nor earlier credentials hold a refresh token.
    MissingRefreshToken,
    /// The token endpoint answered with a failure.
    TokenEndpoint { status: String, excerpt: String },
    /// Cloudflare refused the request.
    Cloudflare,
    /// The backend answered with a failure.
    RequestFailed { status: String, excerpt: String },
    /// The callback server could not start; the text says why.
    CallbackPort(String),
    /// Nobody finished the sign-in in time.
    CallbackTimeout,
    /// The sign-in was called off.
    Cancelled,
    /// The authorization server reported this error.
    OAuth(String),
    /// The callback came without a code.
    MissingCode,
    /// The callback came without a state.
    MissingState,
    /// A service outside failed, in its own words.
    Service(String),
}

impl Clone for CodexError {
    fn clone(&self) -> (r: Self)
        ensures
            r == *self,
    {
        match self {
            CodexError::SignInRequired => CodexError::SignInRequired,
            CodexError::AccountUnknown => CodexError::AccountUnknown,
            CodexError::InvalidCredentials { line, column } => CodexError::InvalidCredentials {
                line: *line,
                column: *column,
            },
            CodexError::InvalidTokenResponse { line, column } => CodexError::InvalidTokenResponse {
                line: *line,
                column: *column,
            },
            CodexError::SignInExpired => CodexError::SignInExpired,
            CodexError::InvalidHeader => CodexError::InvalidHeader,
            CodexError::Transport(reason) => CodexError::Transport(reason.clone()),
            CodexError::StateMismatch => CodexError::StateMismatch,
            CodexError::MissingRefreshToken => CodexError::MissingRefreshToken,
            CodexError::TokenEndpoint { status, excerpt } => CodexError::TokenEndpoint {
                status: status.clone(),
                excerpt: excerpt.clone(),
            },
            CodexError::Cloudflare => CodexError::Cloudflare,
            CodexError::RequestFailed { status, excerpt } => CodexError::RequestFailed {
                status: status.clone(),
                excerpt: excerpt.clone(),
            },
            CodexError::CallbackPort(reason) => CodexError::CallbackPort(reason.clone()),
            CodexError::CallbackTimeout => CodexError::CallbackTimeout,
            CodexError::Cancelled => CodexError::Cancelled,
            CodexError::OAuth(reason) => CodexError::OAuth(reason.clone()),
            CodexError::MissingCode => CodexError::MissingCode,
            CodexError::MissingState => CodexError::MissingState,
            CodexError::Service(reason) => CodexError::Service(reason.clone()),
        }
    }
}

impl CodexError {
    /// The words for the error.
    pub open spec fn words(self) -> Seq<char> {
        match self {
            CodexError::SignInRequired => "Sign in with ChatGPT to use OpenAI Codex"@,
            CodexError::AccountUnknown =>
                "ChatGPT account ID could not be determined; please sign out and sign in again."@,
            CodexError::InvalidCredentials { line, column } =>
                "invalid OpenAI Codex credentials: line "@ + decimal(line as nat) + " column "@
                    + decimal(column as nat),
            CodexError::InvalidTokenResponse { line, column } =>
                "invalid OpenAI OAuth token response: line "@ + decimal(line as nat) + " column "@
                    + decimal(column as nat),
            CodexError::SignInExpired => "Sign in expired. Please sign in again."@,
            CodexError::InvalidHeader => "failed to parse header value"@,
            CodexError::Transport(reason) => reason@,
            CodexError::StateMismatch => "OAuth state did not match"@,
            CodexError::MissingRefreshToken =>
                "OpenAI OAuth response did not include a refresh token"@,
            CodexError::TokenEndpoint { status, excerpt } =>
                "OpenAI OAuth token endpoint returned "@ + status@ + ": "@ + excerpt@,
            CodexError::Cloudflare =>
                "ChatGPT backend rejected the request (Cloudflare). This may need cookie support — please report."@,
            CodexError::RequestFailed { status, excerpt } =>
                "OpenAI Codex request failed with status "@ + status@ + ": "@ + excerpt@,
            CodexError::CallbackPort(reason) =>
                "Sign in already in progress, or port 1455 is in use by another app. Quit other ChatGPT/Codex login flows and try again. ("@
                + reason@ + ")"@,
            CodexError::CallbackTimeout => "Timed out waiting for OpenAI Codex sign-in"@,
            CodexError::Cancelled => "OpenAI Codex sign-in cancelled"@,
            CodexError::OAuth(reason) => "OpenAI OAuth error: "@ + reason@,
            CodexError::MissingCode => "OAuth callback was missing code"@,
            CodexError::MissingState => "OAuth callback was missing state"@,
            CodexError::Service(reason) => reason@,
        }
    }

    /// Tells the error in words.
    pub fn message(&self) -> (r: String)
        ensures
            r@ == self.words(),
    {
        match self {
            CodexError::SignInRequired => "Sign in with ChatGPT to use OpenAI Codex".to_owned(),
            CodexError::AccountUnknown =>
                "ChatGPT account ID could not be determined; please sign out and sign in again.".to_owned(),
            CodexError::InvalidCredentials { line, column } =>
                "invalid OpenAI Codex credentials: line ".to_owned().concat(
                    decimal_text(*line).as_str(),
                ).concat(" column ").concat(decimal_text(*column).as_str()),
            CodexError::InvalidTokenResponse { line, column } =>
                "invalid OpenAI OAuth token response: line ".to_owned().concat(
                    decimal_text(*line).as_str(),
                ).concat(" column ").concat(decimal_text(*column).as_str()),
            CodexError::SignInExpired => "Sign in expired. Please sign in again.".to_owned(),
            CodexError::InvalidHeader => "failed to parse header value".to_owned(),
            CodexError::Transport(reason) => reason.clone(),
            CodexError::StateMismatch => "OAuth state did not match".to_owned(),
            CodexError::MissingRefreshToken =>
                "OpenAI OAuth response did not include a refresh token".to_owned(),
            CodexError::TokenEndpoint { status, excerpt } =>
                "OpenAI OAuth token endpoint returned ".to_owned().concat(status.as_str()).concat(
                    ": ",
                ).concat(excerpt.as_str()),
            CodexError::Cloudflare =>
                "ChatGPT backend rejected the request (Cloudflare). This may need cookie support — please report.".to_owned(),
            CodexError::RequestFailed { status, excerpt } =>
                "OpenAI Codex request failed with status ".to_owned().concat(status.as_str()).concat(
                    ": ",
                ).concat(excerpt.as_str()),
            CodexError::CallbackPort(reason) =>
                "Sign in already in progress, or port 1455 is in use by another app. Quit other ChatGPT/Codex login flows and try again. (".to_owned().concat(
                    reason.as_str(),
                ).concat(")"),
            CodexError::CallbackTimeout => "Timed out waiting for OpenAI Codex sign-in".to_owned(),
            CodexError::Cancelled => "OpenAI Codex sign-in cancelled".to_owned(),
            CodexError::OAuth(reason) => "OpenAI OAuth error: ".to_owned().concat(reason.as_str()),
            CodexError::MissingCode => "OAuth callback was missing code".to_owned(),
            CodexError::MissingState => "OAuth callback was missing state".to_owned(),
            CodexError::Service(reason) => reason.clone(),
        }
    }
}

} // verus!
