use lark_slack_core::errors::CoreError;
use lark_slack_core::webhook::{
    health_url, relay_status_outcome, webhook_outcome, webhook_request, HealthProbe,
};

#[test]
fn empty_webhook_url_fails_before_any_network() {
    assert_eq!(webhook_request(""), Err(CoreError::EmptyWebhookUrl));
    assert_eq!(
        CoreError::EmptyWebhookUrl.message(),
        "The webhook URL is empty"
    );
}

#[test]
fn webhook_request_carries_fixed_payload() {
    let payload = webhook_request("https://open.larksuite.com/hook/abc").unwrap();
    assert_eq!(
        payload,
        "{\"msg_type\":\"text\",\"content\":{\"text\":\"🔗 Lark-Slack Connector テストメッセージ\"}}"
    );
}

#[test]
fn webhook_reply_judged_by_status_class() {
    assert_eq!(webhook_outcome(200), Ok(()));
    assert_eq!(webhook_outcome(204), Ok(()));
    assert_eq!(webhook_outcome(299), Ok(()));
    assert_eq!(webhook_outcome(300), Err(CoreError::WebhookFailed(300)));
    assert_eq!(webhook_outcome(404), Err(CoreError::WebhookFailed(404)));
    assert_eq!(webhook_outcome(500), Err(CoreError::WebhookFailed(500)));
}

#[test]
fn health_url_appends_endpoint() {
    assert_eq!(
        health_url("https://relay.example"),
        "https://relay.example/health"
    );
}

#[test]
fn relay_health_outcomes() {
    let w = "https://relay.example".to_string();
    assert_eq!(
        relay_status_outcome(w.clone(), HealthProbe::Unreachable),
        Err(CoreError::RelayUnreachable)
    );
    assert_eq!(
        relay_status_outcome(w.clone(), HealthProbe::Responded(503)),
        Err(CoreError::RelayNotResponding)
    );
    assert_eq!(relay_status_outcome(w.clone(), HealthProbe::Responded(200)), Ok(w));
}
