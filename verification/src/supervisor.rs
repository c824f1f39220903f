//! Lifecycle supervision of the single bridge child process.
//!
//! The supervisor's decisions are pure functions over [`SupervisorState`];
//! the harness owns the real process handle and keeps `child_present` in
//! step with it under one lock.

use vstd::prelude::*;
use crate::config::{BridgeStatus, Config};
use crate::errors::{ConfigField, CoreError};
use crate::frame::{config_arg, config_arg_spec};

verus! {

/// How long `stop` waits after the graceful-shutdown signal before the
/// child is force-terminated, in milliseconds.
pub const STOP_GRACE_MILLIS: u64 = 500;

/// The supervisor's view of the world: the shared status record and
/// whether a child process is currently under supervision.
#[derive(Debug, Clone, Copy, PartialEq, Eq, Structural)]
pub struct SupervisorState {
    pub status: BridgeStatus,
    pub child_present: bool,
}

impl SupervisorState {
    /// The state before any bridge has been started.
    pub open spec fn initial_spec() -> SupervisorState {
        SupervisorState { status: BridgeStatus::initial(), child_present: false }
    }

    /// Fresh supervisor state: no child, initial status.
    pub fn initial() -> (s: SupervisorState)
        ensures
            s == SupervisorState::initial_spec(),
    {
        SupervisorState {
            status: BridgeStatus {
                is_running: false,
                slack_connected: false,
                lark_connected: false,
                message_stats: crate::config::MessageStats { slack_to_lark: 0, lark_to_slack: 0 },
                server_port: None,
            },
            child_present: false,
        }
    }
}

/// The first required configuration field that is empty, in the fixed
/// check order: bot token, then app token, then webhook URL.
pub open spec fn first_missing_field(c: Config) -> Option<ConfigField> {
    if c.slack_bot_token@.len() == 0 {
        Some(ConfigField::SlackBotToken)
    } else if c.slack_app_token@.len() == 0 {
        Some(ConfigField::SlackAppToken)
    } else if c.lark_webhook_url@.len() == 0 {
        Some(ConfigField::LarkWebhookUrl)
    } else {
        None
    }
}

/// Why `start` is refused before any probing, or `None` if it may proceed:
/// a live child wins over configuration problems.
pub open spec fn start_refusal(s: SupervisorState, c: Config) -> Option<CoreError> {
    if s.child_present {
        Some(CoreError::AlreadyRunning)
    } else {
        match first_missing_field(c) {
            Some(f) => Some(CoreError::InvalidConfig(f)),
            None => None,
        }
    }
}

/// Validates the required configuration fields in the fixed order.
pub fn validate_config(c: &Config) -> (r: Result<(), CoreError>)
    ensures
        match first_missing_field(*c) {
            Some(f) => r == Err::<(), CoreError>(CoreError::InvalidConfig(f)),
            None => r is Ok,
        },
{
    if c.slack_bot_token.as_str().is_empty() {
        Err(CoreError::InvalidConfig(ConfigField::SlackBotToken))
    } else if c.slack_app_token.as_str().is_empty() {
        Err(CoreError::InvalidConfig(ConfigField::SlackAppToken))
    } else if c.lark_webhook_url.as_str().is_empty() {
        Err(CoreError::InvalidConfig(ConfigField::LarkWebhookUrl))
    } else {
        Ok(())
    }
}

/// Gatekeeper of `start`: refuses a second concurrent bridge, validates
/// the configuration, and on success hands back the child's complete
/// `--config=<JSON>` command-line argument. The state is untouched.
pub fn begin_start(s: &SupervisorState, c: &Config) -> (r: Result<String, CoreError>)
    ensures
        match start_refusal(*s, *c) {
            Some(e) => r == Err::<String, CoreError>(e),
            None => r matches Ok(arg) && arg@ == config_arg_spec(*c),
        },
{
    if s.child_present {
        return Err(CoreError::AlreadyRunning);
    }
    match validate_config(c) {
        Err(e) => Err(e),
        Ok(()) => Ok(config_arg(c)),
    }
}

/// Records a successful spawn: the child is now supervised and the status
/// reports the bridge as running. Returns the status snapshot.
pub fn confirm_started(s: &mut SupervisorState) -> (r: BridgeStatus)
    ensures
        final(s).child_present,
        final(s).status == (BridgeStatus { is_running: true, ..old(s).status }),
        r == final(s).status,
{
    s.child_present = true;
    s.status.is_running = true;
    s.status
}

/// Takes the child out of supervision, if any. A concurrent `start` seen
/// after this call observes "not running" even while shutdown blocks.
pub fn take_child(s: &mut SupervisorState) -> (had_child: bool)
    ensures
        !final(s).child_present,
        final(s).status == old(s).status,
        had_child == old(s).child_present,
{
    let had = s.child_present;
    s.child_present = false;
    had
}

/// The status after `stop`: nothing running or connected, no advertised
/// port; the message counters are kept.
pub open spec fn stopped_status(st: BridgeStatus) -> BridgeStatus {
    BridgeStatus {
        is_running: false,
        slack_connected: false,
        lark_connected: false,
        message_stats: st.message_stats,
        server_port: None,
    }
}

/// Resets the shared status at the end of `stop`, regardless of how the
/// shutdown itself went. Returns the status snapshot.
pub fn reset_status(s: &mut SupervisorState) -> (r: BridgeStatus)
    ensures
        final(s).child_present == old(s).child_present,
        final(s).status == stopped_status(old(s).status),
        r == final(s).status,
        !r.is_running,
        !r.slack_connected,
        !r.lark_connected,
{
    s.status.is_running = false;
    s.status.slack_connected = false;
    s.status.lark_connected = false;
    s.status.server_port = None;
    s.status
}

/// The local control URL the graceful-shutdown signal is posted to.
pub fn stop_signal_url() -> (r: &'static str)
    ensures
        r@ == "http://127.0.0.1:3456/stop"@,
{
    "http://127.0.0.1:3456/stop"
}

/// Stopping is idempotent: resetting an already-reset status changes
/// nothing, so repeated `stop` calls all return the same stopped status.
pub proof fn lemma_stop_idempotent(st: BridgeStatus)
    ensures
        stopped_status(stopped_status(st)) == stopped_status(st),
{
}

/// A stopped status upholds the connectivity invariant: when the bridge
/// is not running, neither side is connected.
pub proof fn lemma_stopped_disconnected(st: BridgeStatus)
    ensures
        !stopped_status(st).is_running,
        !stopped_status(st).slack_connected,
        !stopped_status(st).lark_connected,
{
}

/// A second `start` without an intervening `stop` is always refused with
/// `AlreadyRunning`, whatever the configuration says.
pub proof fn lemma_second_start_rejected(s: SupervisorState, c: Config)
    requires
        s.child_present,
    ensures
        start_refusal(s, c) == Some(CoreError::AlreadyRunning),
{
}

} // verus!
