use lark_slack_core::config::{BridgeStatus, Config, MessageStats};
use lark_slack_core::errors::{ConfigField, CoreError};
use lark_slack_core::frame::{config_arg, config_json, BRIDGE_SERVER_PORT};
use lark_slack_core::locator::{
    choose_entry_point, choose_executable, entry_point_candidates, node_fallback_paths,
    npx_fallback_paths,
};
use lark_slack_core::supervisor::{
    begin_start, confirm_started, reset_status, stop_signal_url, take_child, validate_config,
    SupervisorState, STOP_GRACE_MILLIS,
};

fn full_config() -> Config {
    let mut c = Config::default();
    c.slack_bot_token = "xoxb-1".to_string();
    c.slack_app_token = "xapp-1".to_string();
    c.lark_webhook_url = "https://open.larksuite.com/hook/abc".to_string();
    c
}

#[test]
fn missing_bot_token_reported_first() {
    let mut c = full_config();
    c.slack_bot_token = String::new();
    // Even with the app token also missing, the bot token is named first.
    c.slack_app_token = String::new();
    let s = SupervisorState::initial();
    let r = begin_start(&s, &c);
    assert_eq!(r, Err(CoreError::InvalidConfig(ConfigField::SlackBotToken)));
}

#[test]
fn missing_app_token_reported_second() {
    let mut c = full_config();
    c.slack_app_token = String::new();
    let s = SupervisorState::initial();
    let r = begin_start(&s, &c);
    assert_eq!(r, Err(CoreError::InvalidConfig(ConfigField::SlackAppToken)));
}

#[test]
fn missing_webhook_url_reported_third() {
    let mut c = full_config();
    c.lark_webhook_url = String::new();
    let s = SupervisorState::initial();
    let r = begin_start(&s, &c);
    assert_eq!(r, Err(CoreError::InvalidConfig(ConfigField::LarkWebhookUrl)));
}

#[test]
fn validate_accepts_complete_config() {
    assert_eq!(validate_config(&full_config()), Ok(()));
}

#[test]
fn invalid_config_message_names_field() {
    let e = CoreError::InvalidConfig(ConfigField::LarkWebhookUrl);
    assert_eq!(e.message(), "Missing required setting: Lark webhook URL");
}

#[test]
fn second_start_is_rejected_and_child_untouched() {
    let c = full_config();
    let mut s = SupervisorState::initial();
    assert!(begin_start(&s, &c).is_ok());
    let snapshot = confirm_started(&mut s);
    assert!(snapshot.is_running);
    assert!(s.child_present);
    let second = begin_start(&s, &c);
    assert_eq!(second, Err(CoreError::AlreadyRunning));
    // The supervised child is left exactly as it was.
    assert!(s.child_present);
    assert!(s.status.is_running);
}

#[test]
fn stop_without_child_is_a_noop_and_idempotent() {
    let mut s = SupervisorState::initial();
    assert!(!take_child(&mut s));
    let first = reset_status(&mut s);
    assert!(!first.is_running);
    assert!(!take_child(&mut s));
    let second = reset_status(&mut s);
    assert_eq!(first, second);
}

#[test]
fn stop_resets_connectivity_but_keeps_counters() {
    let mut s = SupervisorState::initial();
    s.status = BridgeStatus {
        is_running: true,
        slack_connected: true,
        lark_connected: true,
        message_stats: MessageStats { slack_to_lark: 7, lark_to_slack: 2 },
        server_port: Some(3456),
    };
    s.child_present = true;
    assert!(take_child(&mut s));
    assert!(!s.child_present);
    let after = reset_status(&mut s);
    assert!(!after.is_running);
    assert!(!after.slack_connected);
    assert!(!after.lark_connected);
    assert_eq!(after.server_port, None);
    assert_eq!(after.message_stats, MessageStats { slack_to_lark: 7, lark_to_slack: 2 });
}

#[test]
fn config_blob_is_exact() {
    let mut c = full_config();
    c.slack_signing_secret = "s\"s".to_string();
    c.slack_user_token = "back\\slash".to_string();
    c.lark_app_id = "line\nbreak".to_string();
    c.send_as_user = true;
    let blob = config_json(&c);
    let expected = "{\"slackBotToken\":\"xoxb-1\",\"slackAppToken\":\"xapp-1\",\"slackSigningSecret\":\"s\\\"s\",\"slackUserToken\":\"back\\\\slash\",\"larkWebhookUrl\":\"https://open.larksuite.com/hook/abc\",\"larkAppId\":\"line\\u000abreak\",\"larkAppSecret\":\"\",\"defaultSlackChannel\":\"\",\"sendAsUser\":true,\"serverPort\":3456}";
    assert_eq!(blob, expected);
}

#[test]
fn start_argument_wraps_blob() {
    let c = full_config();
    let arg = begin_start(&SupervisorState::initial(), &c).unwrap();
    assert_eq!(arg, format!("--config={}", config_json(&c)));
    assert!(arg.starts_with("--config={\"slackBotToken\":\"xoxb-1\""));
}

#[test]
fn fixed_port_and_grace_period() {
    assert_eq!(BRIDGE_SERVER_PORT, 3456);
    assert_eq!(STOP_GRACE_MILLIS, 500);
    assert_eq!(stop_signal_url(), "http://127.0.0.1:3456/stop");
}

#[test]
fn runtime_path_hit_wins() {
    let candidates = node_fallback_paths();
    let exists = vec![true, true, true];
    let r = choose_executable(Some("/custom/node".to_string()), &candidates, &exists);
    assert_eq!(r, Some("/custom/node".to_string()));
}

#[test]
fn runtime_falls_back_to_first_existing() {
    let candidates = node_fallback_paths();
    let exists = vec![false, true, true];
    let r = choose_executable(None, &candidates, &exists);
    assert_eq!(r, Some("/opt/homebrew/bin/node".to_string()));
}

#[test]
fn runtime_not_found_when_nothing_exists() {
    let candidates = npx_fallback_paths();
    let exists = vec![false, false, false];
    assert_eq!(choose_executable(None, &candidates, &exists), None);
}

#[test]
fn entry_point_candidates_are_ordered() {
    let v = entry_point_candidates("/app/bin", &Some("/src/tauri".to_string()));
    assert_eq!(v.len(), 4);
    assert_eq!(v[0], "/app/bin/../../../../lark-slack-connector/dist/cli/desktop.js");
    assert_eq!(v[1], "/app/bin/../../../lark-slack-connector/dist/cli/desktop.js");
    assert_eq!(v[2], "/app/bin/../Resources/cli/desktop.js");
    assert_eq!(v[3], "/src/tauri/../../lark-slack-connector/dist/cli/desktop.js");
    assert_eq!(entry_point_candidates("/app/bin", &None).len(), 3);
}

#[test]
fn entry_point_error_reports_all_searched_paths() {
    let v = entry_point_candidates("/app/bin", &None);
    let exists = vec![false, false, false];
    match choose_entry_point(&v, &exists) {
        Err(CoreError::EntryPointNotFound(searched)) => {
            assert_eq!(searched, v);
            let msg = CoreError::EntryPointNotFound(searched).message();
            assert!(msg.starts_with("The bridge entry point was not found; searched: "));
            assert!(msg.contains("/app/bin/../Resources/cli/desktop.js"));
        }
        other => panic!("expected EntryPointNotFound, got {:?}", other),
    }
}

#[test]
fn entry_point_picks_first_existing() {
    let v = entry_point_candidates("/app/bin", &None);
    let exists = vec![false, false, true];
    assert_eq!(choose_entry_point(&v, &exists), Ok(v[2].clone()));
}

#[test]
fn defaults_are_empty_and_stopped() {
    let c = Config::default();
    assert_eq!(c.slack_bot_token, "");
    assert!(!c.send_as_user);
    let s = BridgeStatus::default();
    assert!(!s.is_running && !s.slack_connected && !s.lark_connected);
    assert_eq!(s.server_port, None);
    assert_eq!(s.message_stats, MessageStats::default());
}

#[test]
fn webhook_status_message_carries_code() {
    assert_eq!(CoreError::WebhookFailed(404).message(), "HTTP 404");
    assert_eq!(CoreError::AlreadyRunning.message(), "The bridge is already running");
}
