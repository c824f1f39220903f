//! The Lark webhook test call and the relay health probe: what is sent,
//! and how each reply is judged. The harness performs the requests.

use vstd::prelude::*;
use crate::errors::CoreError;
use crate::text::join2;

verus! {

/// The fixed JSON payload of the webhook test message.
pub open spec fn webhook_test_payload_spec() -> Seq<char> {
    "{\"msg_type\":\"text\",\"content\":{\"text\":\"🔗 Lark-Slack Connector テストメッセージ\"}}"@
}

/// Prepares the webhook test: an empty URL is refused before any network
/// traffic; any other URL gets the fixed test payload for sending.
pub fn webhook_request(url: &str) -> (r: Result<String, CoreError>)
    ensures
        url@.len() == 0 <==> r == Err::<String, CoreError>(CoreError::EmptyWebhookUrl),
        r is Ok <==> url@.len() > 0,
        r matches Ok(payload) ==> payload@ == webhook_test_payload_spec(),
{
    if url.is_empty() {
        Err(CoreError::EmptyWebhookUrl)
    } else {
        Ok(
            "{\"msg_type\":\"text\",\"content\":{\"text\":\"🔗 Lark-Slack Connector テストメッセージ\"}}".to_owned(),
        )
    }
}

/// Judges the webhook reply: success statuses pass, everything else is
/// surfaced with the status code.
pub fn webhook_outcome(status: u16) -> (r: Result<(), CoreError>)
    ensures
        200 <= status < 300 <==> r is Ok,
        r matches Err(e) ==> e == CoreError::WebhookFailed(status),
{
    if 200 <= status && status < 300 {
        Ok(())
    } else {
        Err(CoreError::WebhookFailed(status))
    }
}

/// The relay's health endpoint for a given worker URL.
pub fn health_url(worker: &str) -> (r: String)
    ensures
        r@ == worker@ + "/health"@,
{
    join2(worker, "/health")
}

/// What the harness observed when probing the relay's health endpoint.
#[derive(Debug, Clone, Copy, PartialEq, Eq, Structural)]
pub enum HealthProbe {
    /// The request failed outright.
    Unreachable,
    /// The relay answered with this status code.
    Responded(u16),
}

/// Judges the relay health probe: a success status hands back the worker
/// URL; failing to connect and non-success answers are told apart.
pub fn relay_status_outcome(worker_url: String, probe: HealthProbe) -> (r: Result<String, CoreError>)
    ensures
        probe is Unreachable ==> r == Err::<String, CoreError>(CoreError::RelayUnreachable),
        probe matches HealthProbe::Responded(s) ==> if 200 <= s < 300 {
            r matches Ok(u) && u@ == worker_url@
        } else {
            r == Err::<String, CoreError>(CoreError::RelayNotResponding)
        },
{
    match probe {
        HealthProbe::Unreachable => Err(CoreError::RelayUnreachable),
        HealthProbe::Responded(s) => {
            if 200 <= s && s < 300 {
                Ok(worker_url)
            } else {
                Err(CoreError::RelayNotResponding)
            }
        },
    }
}

} // verus!
