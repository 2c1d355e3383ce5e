# openai_codex

Signing in to OpenAI Codex with a ChatGPT subscription, and sending requests to it: the
authorization-code flow with PKCE, the tokens and their refresh, the requests to the Codex backend,
the models, and the settings panel. The library, in `src/`, is proved with Verus; `app/` is ordinary
Rust.

- `src/` is the library. Each function's contract says what it returns; `src/laws.rs` states what
  holds of the library as a whole.
- `app/` carries the decisions out: it sends requests, runs the callback server, and keeps secrets,
  through an HTTP client, a store for secrets and a window that the editor brings. It also puts
  values into the JSON forms in which they are kept and sent. None of it is proved.
- `tests/` runs the library on concrete values, with the real crates behind it.

Contracts that are believed and not proved stand on the functions marked
`#[verifier::external_body]` in `encoding.rs`, `json.rs`, `clock.rs` and `redaction.rs`. Each is one
call into `base64`, `sha2`, `rand`, `urlencoding`, `serde_urlencoded`, `serde_json` or `std`, and its
doc comment says what is claimed of that call.
