//! The transfer of Codex requests to other upstreams.
//!
//! * `chat` maps requests to the Responses API to an upstream that speaks the Chat
//!   Completions API, and plans the answers. An upstream that fails is read by
//!   `error_body`, understood by `upstream_error` and reported by `failure_event`.
//! * `chatgpt_auth` tells ChatGPT's bearer tokens from others.
//! * `pet_focus` decides where the script goes that keeps the pet of Codex Desktop
//!   from taking the focus, and `cdp` how it gets there.
//! * `json`, `headers` and `text` say what the values of serde_json, http and std
//!   hold, and what is relied on of their operations.

pub mod cdp;
pub mod chat;
pub mod chatgpt_auth;
pub mod error_body;
pub mod failure_event;
pub mod headers;
pub mod json;
pub mod pet_focus;
pub mod text;
pub mod upstream_error;
