//! The logic of an administrative tool for a cloud directory: signing in
//! with the authorization-code flow and PKCE, keeping and renewing the
//! session's credential, and running tasks in a worker process that reports
//! over a line protocol.
//!
//! Every function is verified against a contract over plain values. The
//! outside work (the vault, the listener, the browser, the token endpoint,
//! the worker process, the terminal) is the caller's: the flows are state
//! machines that name the next action and take its outcome as an event.
//! What the library has from other crates stands in `json`, `weburl`,
//! `oauth` and `token`, behind contracts that are believed, not proved.

pub mod app;
pub mod auth;
pub mod callback;
pub mod credential;
pub mod decimal;
pub mod error;
pub mod export;
pub mod interactive;
pub mod ipc;
pub mod json;
pub mod login;
pub mod oauth;
pub mod paths;
pub mod profile;
pub mod refresh;
pub mod runner;
pub mod session;
pub mod text;
pub mod token;
pub mod ui;
pub mod weburl;
