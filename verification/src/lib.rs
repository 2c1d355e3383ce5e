//! OpenAI Codex with a ChatGPT subscription: sign-in, tokens and requests.
//!
//! The library decides and computes; whoever uses it sends the requests, keeps the secrets, runs
//! the callback server and draws the panel. `state` holds who is signed in and the steps of a
//! sign-in and of a refresh, `callback` the server's decisions, `provider` the models, and `laws`
//! what holds across them.

pub mod callback;
pub mod clock;
pub mod credentials;
pub mod encoding;
pub mod error;
pub mod http;
pub mod json;
pub mod laws;
pub mod oauth;
pub mod provider;
pub mod redaction;
pub mod request;
pub mod state;
pub mod text;
pub mod view;
