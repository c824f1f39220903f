//! The caller-visible failure taxonomy of the core.

use vstd::prelude::*;
use crate::text::{dec_spec, decimal_string, join2, join_spec, join_with};

verus! {

/// A required configuration field, in the fixed order in which `start`
/// checks them.
#[derive(Debug, Clone, Copy, PartialEq, Eq, Structural)]
pub enum ConfigField {
    SlackBotToken,
    SlackAppToken,
    LarkWebhookUrl,
}

/// Every failure the core surfaces to its caller.
#[derive(Debug, Clone, PartialEq, Eq)]
pub enum CoreError {
    /// `start` found a live child already under supervision.
    AlreadyRunning,
    /// A required configuration field is empty; names the first one missing.
    InvalidConfig(ConfigField),
    /// No Node.js runtime could be located.
    RuntimeNotFound,
    /// No bridge entry-point script exists; carries every path probed.
    EntryPointNotFound(Vec<String>),
    /// The child process could not be spawned; carries the OS reason.
    SpawnFailed(String),
    /// No OAuth client id is configured, neither embedded nor saved.
    CredentialsMissing,
    /// The default browser could not be opened; carries the OS reason.
    BrowserLaunchFailed(String),
    /// The relay delivered no authorization code within the polling budget.
    AuthorizationTimeout,
    /// The provider rejected the code exchange; carries its reported error.
    TokenExchangeFailed(String),
    /// The exchange succeeded but carried no per-user access token.
    TokenMissing,
    /// An outbound request failed outright; carries the transport reason.
    NetworkError(String),
    /// The relay's health endpoint could not be reached at all.
    RelayUnreachable,
    /// The relay's health endpoint answered with a non-success status.
    RelayNotResponding,
    /// `testWebhook` was handed an empty URL.
    EmptyWebhookUrl,
    /// The webhook endpoint answered with the carried non-success status.
    WebhookFailed(u16),
}

/// Human-readable name of a required configuration field.
pub open spec fn field_name_spec(f: ConfigField) -> Seq<char> {
    match f {
        ConfigField::SlackBotToken => "Slack bot token"@,
        ConfigField::SlackAppToken => "Slack app token"@,
        ConfigField::LarkWebhookUrl => "Lark webhook URL"@,
    }
}

/// The user-facing message of each error.
pub open spec fn message_spec(e: CoreError) -> Seq<char> {
    match e {
        CoreError::AlreadyRunning => "The bridge is already running"@,
        CoreError::InvalidConfig(f) => "Missing required setting: "@ + field_name_spec(f),
        CoreError::RuntimeNotFound => "Node.js was not found; please install Node.js"@,
        CoreError::EntryPointNotFound(paths) => "The bridge entry point was not found; searched: "@
            + join_spec(paths@.map_values(|p: String| p@), ", "@),
        CoreError::SpawnFailed(reason) => "Failed to start the bridge process: "@ + reason@,
        CoreError::CredentialsMissing => "Slack OAuth credentials are not configured"@,
        CoreError::BrowserLaunchFailed(reason) => "Could not open the browser: "@ + reason@,
        CoreError::AuthorizationTimeout => "Authorization timed out; please try again"@,
        CoreError::TokenExchangeFailed(detail) => "Slack authorization error: "@ + detail@,
        CoreError::TokenMissing => "The authorization response carried no user token"@,
        CoreError::NetworkError(reason) => "Network error: "@ + reason@,
        CoreError::RelayUnreachable => "Cannot reach the OAuth worker"@,
        CoreError::RelayNotResponding => "The OAuth worker is not responding"@,
        CoreError::EmptyWebhookUrl => "The webhook URL is empty"@,
        CoreError::WebhookFailed(status) => "HTTP "@ + dec_spec(status as nat),
    }
}

impl ConfigField {
    /// Human-readable name of the field.
    pub fn name(&self) -> (r: &'static str)
        ensures
            r@ == field_name_spec(*self),
    {
        match self {
            ConfigField::SlackBotToken => "Slack bot token",
            ConfigField::SlackAppToken => "Slack app token",
            ConfigField::LarkWebhookUrl => "Lark webhook URL",
        }
    }
}

impl CoreError {
    /// The user-facing text of this error.
    pub fn message(&self) -> (r: String)
        ensures
            r@ == message_spec(*self),
    {
        match self {
            CoreError::AlreadyRunning => "The bridge is already running".to_owned(),
            CoreError::InvalidConfig(f) => join2("Missing required setting: ", f.name()),
            CoreError::RuntimeNotFound => "Node.js was not found; please install Node.js".to_owned(),
            CoreError::EntryPointNotFound(paths) => {
                let listed = join_with(paths, ", ");
                join2("The bridge entry point was not found; searched: ", listed.as_str())
            },
            CoreError::SpawnFailed(reason) => join2(
                "Failed to start the bridge process: ",
                reason.as_str(),
            ),
            CoreError::CredentialsMissing => "Slack OAuth credentials are not configured".to_owned(),
            CoreError::BrowserLaunchFailed(reason) => join2(
                "Could not open the browser: ",
                reason.as_str(),
            ),
            CoreError::AuthorizationTimeout => "Authorization timed out; please try again".to_owned(),
            CoreError::TokenExchangeFailed(detail) => join2(
                "Slack authorization error: ",
                detail.as_str(),
            ),
            CoreError::TokenMissing => "The authorization response carried no user token".to_owned(),
            CoreError::NetworkError(reason) => join2("Network error: ", reason.as_str()),
            CoreError::RelayUnreachable => "Cannot reach the OAuth worker".to_owned(),
            CoreError::RelayNotResponding => "The OAuth worker is not responding".to_owned(),
            CoreError::EmptyWebhookUrl => "The webhook URL is empty".to_owned(),
            CoreError::WebhookFailed(status) => join2(
                "HTTP ",
                decimal_string(*status as u32).as_str(),
            ),
        }
    }
}

} // verus!
