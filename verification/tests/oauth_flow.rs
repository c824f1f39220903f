use lark_slack_core::config::Config;
use lark_slack_core::errors::CoreError;
use lark_slack_core::oauth::{
    commit_oauth, exchange_outcome, exchange_request, get_oauth_credentials,
    get_oauth_worker_url, has_oauth_credentials, poll_step, resolve_user_name, retrieve_url,
    run_poll, start_flow, token_endpoint_url, ExchangeReply, FlowStart, IdentityReply, PollEvent,
    PollStep, RetrieveReply, OAUTH_POLL_ATTEMPTS, RELAY_REQUEST_TIMEOUT_SECS,
};

fn delivered(code: &str) -> PollEvent {
    PollEvent::Response(Some(RetrieveReply { code: Some(code.to_string()), error: None }))
}

#[test]
fn poll_succeeds_on_the_last_attempt() {
    let mut events: Vec<PollEvent> = Vec::new();
    for _ in 0..(OAUTH_POLL_ATTEMPTS - 1) {
        events.push(PollEvent::Unavailable);
    }
    assert_eq!(events.len(), 119);
    events.push(delivered("auth-code-42"));
    assert_eq!(run_poll(&events), Ok("auth-code-42".to_string()));
}

#[test]
fn poll_times_out_after_exactly_the_budget() {
    let events: Vec<PollEvent> =
        (0..OAUTH_POLL_ATTEMPTS).map(|_| PollEvent::Unavailable).collect();
    assert_eq!(events.len(), 120);
    assert_eq!(run_poll(&events), Err(CoreError::AuthorizationTimeout));
    // A code delivered after the budget is spent is never seen.
    let mut late = events.clone();
    late.push(delivered("too-late"));
    // The harness stops polling at the budget; feed only the budgeted prefix.
    late.truncate(OAUTH_POLL_ATTEMPTS as usize);
    assert_eq!(run_poll(&late), Err(CoreError::AuthorizationTimeout));
}

#[test]
fn poll_ignores_absent_and_empty_codes() {
    let events = vec![
        PollEvent::Unavailable,
        PollEvent::Response(Some(RetrieveReply { code: None, error: Some("pending".to_string()) })),
        PollEvent::Response(Some(RetrieveReply { code: Some(String::new()), error: None })),
        delivered("finally"),
    ];
    assert_eq!(run_poll(&events), Ok("finally".to_string()));
}

#[test]
fn poll_step_decisions() {
    assert_eq!(poll_step(PollEvent::Unavailable), PollStep::Again);
    assert_eq!(
        poll_step(PollEvent::Response(Some(RetrieveReply { code: None, error: None }))),
        PollStep::Again
    );
    assert_eq!(
        poll_step(PollEvent::Response(Some(RetrieveReply {
            code: Some(String::new()),
            error: None
        }))),
        PollStep::Again
    );
    assert_eq!(poll_step(delivered("c")), PollStep::Done("c".to_string()));
    assert_eq!(poll_step(PollEvent::Response(None)), PollStep::Again);
}

#[test]
fn undecodable_success_reply_counts_as_not_yet_available() {
    let events = vec![PollEvent::Unavailable, PollEvent::Response(None), delivered("after")];
    assert_eq!(run_poll(&events), Ok("after".to_string()));
    let never: Vec<PollEvent> =
        (0..OAUTH_POLL_ATTEMPTS).map(|_| PollEvent::Response(None)).collect();
    assert_eq!(run_poll(&never), Err(CoreError::AuthorizationTimeout));
}

#[test]
fn distinct_tokens_poll_distinct_urls() {
    let w = "https://relay.example";
    let u1 = retrieve_url(w, "token-a");
    let u2 = retrieve_url(w, "token-b");
    assert_eq!(u1, "https://relay.example/oauth/retrieve?state=token-a");
    assert_ne!(u1, u2);
}

#[test]
fn worker_url_prefers_nonempty_override() {
    assert_eq!(
        get_oauth_worker_url(&None),
        "https://lark-slack-oauth.plark-droid.workers.dev"
    );
    assert_eq!(
        get_oauth_worker_url(&Some(String::new())),
        "https://lark-slack-oauth.plark-droid.workers.dev"
    );
    assert_eq!(
        get_oauth_worker_url(&Some("https://other.example".to_string())),
        "https://other.example"
    );
}

#[test]
fn credentials_prefer_embedded_over_configured() {
    let mut c = Config::default();
    c.slack_client_id = "cfg-id".to_string();
    c.slack_client_secret = "cfg-secret".to_string();
    let (id, secret) =
        get_oauth_credentials(&c, &Some("emb-id".to_string()), &Some(String::new()));
    assert_eq!(id, "emb-id");
    assert_eq!(secret, "cfg-secret");
    assert!(has_oauth_credentials(&c, &None, &None));
    c.slack_client_secret = String::new();
    assert!(!has_oauth_credentials(&c, &None, &None));
    assert!(has_oauth_credentials(&c, &None, &Some("emb-secret".to_string())));
}

#[test]
fn start_flow_without_client_id_fails_before_any_network() {
    let c = Config::default();
    let r = start_flow(&c, &None, &None);
    assert_eq!(r, Err(CoreError::CredentialsMissing));
}

#[test]
fn start_flow_builds_exact_authorize_url() {
    let mut c = Config::default();
    c.slack_client_id = "123.456".to_string();
    let f: FlowStart = start_flow(&c, &Some("https://relay.example".to_string()), &None).unwrap();
    assert_eq!(f.redirect_uri, "https://relay.example/oauth/callback");
    assert_eq!(f.state_token.len(), 36);
    let expected = format!(
        "https://slack.com/oauth/v2/authorize?client_id=123.456&user_scope=chat:write&redirect_uri={}&state={}",
        urlencoding::encode("https://relay.example/oauth/callback"),
        f.state_token
    );
    assert_eq!(f.authorize_url, expected);
    // The callback really is percent-encoded inside the authorization URL.
    assert!(f.authorize_url.contains("redirect_uri=https%3A%2F%2Frelay.example%2Foauth%2Fcallback"));
}

#[test]
fn two_flows_carry_distinct_state_tokens() {
    let mut c = Config::default();
    c.slack_client_id = "id".to_string();
    let f1 = start_flow(&c, &None, &None).unwrap();
    let f2 = start_flow(&c, &None, &None).unwrap();
    assert_eq!(f1.state_token.len(), 36);
    assert_eq!(f2.state_token.len(), 36);
    assert_ne!(f1.state_token, f2.state_token);
    let w = get_oauth_worker_url(&None);
    assert_ne!(
        retrieve_url(&w, &f1.state_token),
        retrieve_url(&w, &f2.state_token)
    );
}

#[test]
fn exchange_request_names_the_four_pairs() {
    let mut c = Config::default();
    c.slack_client_id = "cfg-id".to_string();
    c.slack_client_secret = "cfg-secret".to_string();
    let form = exchange_request(
        &c,
        &Some("emb-id".to_string()),
        &None,
        "auth-code",
        "https://relay.example/oauth/callback",
    );
    assert_eq!(
        form,
        vec![
            ("client_id".to_string(), "emb-id".to_string()),
            ("client_secret".to_string(), "cfg-secret".to_string()),
            ("code".to_string(), "auth-code".to_string()),
            ("redirect_uri".to_string(), "https://relay.example/oauth/callback".to_string()),
        ]
    );
    assert_eq!(token_endpoint_url(), "https://slack.com/api/oauth.v2.access");
}

#[test]
fn exchange_failure_carries_provider_error() {
    let r = exchange_outcome(ExchangeReply {
        ok: false,
        error: Some("invalid_code".to_string()),
        user_token: None,
    });
    assert_eq!(r, Err(CoreError::TokenExchangeFailed("invalid_code".to_string())));
    let msg = CoreError::TokenExchangeFailed("invalid_code".to_string()).message();
    assert_eq!(msg, "Slack authorization error: invalid_code");
}

#[test]
fn exchange_failure_without_detail_uses_fallback() {
    let r = exchange_outcome(ExchangeReply { ok: false, error: None, user_token: None });
    assert_eq!(r, Err(CoreError::TokenExchangeFailed("unknown error".to_string())));
}

#[test]
fn exchange_without_user_token_fails() {
    let r = exchange_outcome(ExchangeReply { ok: true, error: None, user_token: None });
    assert_eq!(r, Err(CoreError::TokenMissing));
}

#[test]
fn exchange_hands_back_user_token() {
    let r = exchange_outcome(ExchangeReply {
        ok: true,
        error: None,
        user_token: Some("xoxp-user".to_string()),
    });
    assert_eq!(r, Ok("xoxp-user".to_string()));
}

#[test]
fn identity_lookup_failures_fall_back_to_placeholder() {
    assert_eq!(resolve_user_name(None), "Authenticated User");
    assert_eq!(
        resolve_user_name(Some(IdentityReply { ok: false, name: Some("alex".to_string()) })),
        "Authenticated User"
    );
    assert_eq!(
        resolve_user_name(Some(IdentityReply { ok: true, name: None })),
        "Authenticated User"
    );
    assert_eq!(
        resolve_user_name(Some(IdentityReply { ok: true, name: Some("alex".to_string()) })),
        "alex"
    );
}

#[test]
fn commit_updates_only_the_oauth_fields() {
    let mut c = Config::default();
    c.slack_bot_token = "xoxb".to_string();
    c.lark_webhook_url = "https://hook".to_string();
    commit_oauth(&mut c, "xoxp-user".to_string(), "alex".to_string());
    assert_eq!(c.slack_user_token, "xoxp-user");
    assert_eq!(c.slack_user_name, "alex");
    assert!(c.send_as_user);
    assert_eq!(c.slack_bot_token, "xoxb");
    assert_eq!(c.lark_webhook_url, "https://hook");
    assert_eq!(c.slack_client_id, "");
}

#[test]
fn relay_request_timeout_is_five_seconds() {
    assert_eq!(RELAY_REQUEST_TIMEOUT_SECS, 5);
}
