//! Connection settings and the shared bridge status record.

use vstd::prelude::*;

verus! {

/// Connection credentials and settings for the bridge process.
///
/// All fields default to empty (or `false` for `send_as_user`); the harness
/// replaces the whole value at once when the user saves new settings.
#[derive(Debug, Clone, PartialEq, Eq)]
pub struct Config {
    pub slack_bot_token: String,
    pub slack_app_token: String,
    pub slack_signing_secret: String,
    pub lark_webhook_url: String,
    pub lark_app_id: String,
    pub lark_app_secret: String,
    pub slack_user_token: String,
    pub default_slack_channel: String,
    pub send_as_user: bool,
    pub slack_client_id: String,
    pub slack_client_secret: String,
    pub slack_user_name: String,
}

impl Default for Config {
    fn default() -> (c: Config)
        ensures
            c.slack_bot_token@ == Seq::<char>::empty(),
            c.slack_app_token@ == Seq::<char>::empty(),
            c.slack_signing_secret@ == Seq::<char>::empty(),
            c.lark_webhook_url@ == Seq::<char>::empty(),
            c.lark_app_id@ == Seq::<char>::empty(),
            c.lark_app_secret@ == Seq::<char>::empty(),
            c.slack_user_token@ == Seq::<char>::empty(),
            c.default_slack_channel@ == Seq::<char>::empty(),
            !c.send_as_user,
            c.slack_client_id@ == Seq::<char>::empty(),
            c.slack_client_secret@ == Seq::<char>::empty(),
            c.slack_user_name@ == Seq::<char>::empty(),
    {
        Config {
            slack_bot_token: String::new(),
            slack_app_token: String::new(),
            slack_signing_secret: String::new(),
            lark_webhook_url: String::new(),
            lark_app_id: String::new(),
            lark_app_secret: String::new(),
            slack_user_token: String::new(),
            default_slack_channel: String::new(),
            send_as_user: false,
            slack_client_id: String::new(),
            slack_client_secret: String::new(),
            slack_user_name: String::new(),
        }
    }
}

/// Message counters reported by the bridge child.
#[derive(Debug, Clone, Copy, PartialEq, Eq, Structural)]
pub struct MessageStats {
    pub slack_to_lark: u32,
    pub lark_to_slack: u32,
}

impl Default for MessageStats {
    fn default() -> (s: MessageStats)
        ensures
            s == (MessageStats { slack_to_lark: 0, lark_to_slack: 0 }),
    {
        MessageStats { slack_to_lark: 0, lark_to_slack: 0 }
    }
}

/// Shared record of the bridge's connectivity, counters and control port.
#[derive(Debug, Clone, Copy, PartialEq, Eq, Structural)]
pub struct BridgeStatus {
    pub is_running: bool,
    pub slack_connected: bool,
    pub lark_connected: bool,
    pub message_stats: MessageStats,
    pub server_port: Option<u16>,
}

impl Default for BridgeStatus {
    fn default() -> (s: BridgeStatus)
        ensures
            s == BridgeStatus::initial(),
    {
        BridgeStatus {
            is_running: false,
            slack_connected: false,
            lark_connected: false,
            message_stats: MessageStats { slack_to_lark: 0, lark_to_slack: 0 },
            server_port: None,
        }
    }
}

impl BridgeStatus {
    /// The status of a bridge that has never run: nothing connected, all
    /// counters zero, no advertised port.
    pub open spec fn initial() -> BridgeStatus {
        BridgeStatus {
            is_running: false,
            slack_connected: false,
            lark_connected: false,
            message_stats: MessageStats { slack_to_lark: 0, lark_to_slack: 0 },
            server_port: None,
        }
    }
}

} // verus!
