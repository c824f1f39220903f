//! Supervisory core of the Lark–Slack desktop connector.
//!
//! The crate owns the decision logic of the desktop shell: validating and
//! serializing the bridge configuration, supervising the single bridge child
//! process, decoding the child's line-delimited stdout protocol into typed
//! events, and driving the browser-based OAuth flow against the relay worker.
//! All I/O (process spawning, HTTP, the browser) is performed by a thin
//! unverified harness that feeds plain values into the functions here.

pub mod config;
pub mod errors;
pub mod frame;
pub mod jsonval;
pub mod locator;
pub mod oauth;
pub mod protocol;
pub mod supervisor;
pub mod text;
pub mod webhook;
