//! The browser-based OAuth authorization flow against the relay worker.
//!
//! Phase one builds the authorization URL around a fresh random state
//! token; the harness opens the browser. Phase two polls the relay for
//! the delivered code under a fixed attempt budget, exchanges it for a
//! token, resolves the user's display name, and commits the result into
//! the configuration.

use vstd::prelude::*;
use crate::config::Config;
use crate::errors::CoreError;
use crate::text::join2;

verus! {

/// How many once-per-second retrieval attempts `completeFlow` makes
/// before giving up with `AuthorizationTimeout`.
pub const OAUTH_POLL_ATTEMPTS: u32 = 120;

/// Request timeout, in seconds, for each individual call to the relay.
pub const RELAY_REQUEST_TIMEOUT_SECS: u64 = 5;

/// What `urlencoding::encode` returns for a given text. The encoding is a
/// function of the characters alone; the contracts only carry it along.
pub uninterp spec fn percent_encoded(s: Seq<char>) -> Seq<char>;

/// Relies on `urlencoding::encode`: percent-encodes every byte except
/// ASCII alphanumerics and `-`, `_`, `.`, `~`.
#[verifier::external_body]
fn url_encode(s: &str) -> (r: String)
    ensures
        r@ == percent_encoded(s@),
{
    urlencoding::encode(s).into_owned()
}

/// Relies on `uuid::Uuid::new_v4` rendered in the hyphenated form: a
/// fresh random token, 36 characters long. Nothing relates two calls.
#[verifier::external_body]
fn fresh_state_token() -> (r: String)
    ensures
        r@.len() == 36,
{
    uuid::Uuid::new_v4().to_string()
}

/// The relay worker consulted when no override is embedded in the build.
pub open spec fn default_worker_url_spec() -> Seq<char> {
    "https://lark-slack-oauth.plark-droid.workers.dev"@
}

/// The relay worker URL: a non-empty build-embedded override wins over
/// the fixed default.
pub open spec fn worker_url_spec(embedded: Option<String>) -> Seq<char> {
    match embedded {
        Some(u) => if u@.len() > 0 {
            u@
        } else {
            default_worker_url_spec()
        },
        None => default_worker_url_spec(),
    }
}

/// Resolves the relay worker URL from the build-embedded override.
pub fn get_oauth_worker_url(embedded: &Option<String>) -> (r: String)
    ensures
        r@ == worker_url_spec(*embedded),
{
    match embedded {
        Some(u) => {
            if !u.as_str().is_empty() {
                u.clone()
            } else {
                "https://lark-slack-oauth.plark-droid.workers.dev".to_owned()
            }
        },
        None => "https://lark-slack-oauth.plark-droid.workers.dev".to_owned(),
    }
}

/// One OAuth credential: a non-empty build-embedded value wins over the
/// one saved in the configuration.
pub open spec fn effective_credential_spec(stored: Seq<char>, embedded: Option<String>) -> Seq<
    char,
> {
    match embedded {
        Some(e) => if e@.len() > 0 {
            e@
        } else {
            stored
        },
        None => stored,
    }
}

fn effective_credential(stored: &String, embedded: &Option<String>) -> (r: String)
    ensures
        r@ == effective_credential_spec(stored@, *embedded),
{
    match embedded {
        Some(e) => {
            if !e.as_str().is_empty() {
                e.clone()
            } else {
                stored.clone()
            }
        },
        None => stored.clone(),
    }
}

/// Resolves the OAuth client credentials: each build-embedded value takes
/// priority over its configured counterpart.
pub fn get_oauth_credentials(
    config: &Config,
    embedded_id: &Option<String>,
    embedded_secret: &Option<String>,
) -> (r: (String, String))
    ensures
        r.0@ == effective_credential_spec(config.slack_client_id@, *embedded_id),
        r.1@ == effective_credential_spec(config.slack_client_secret@, *embedded_secret),
{
    let id = effective_credential(&config.slack_client_id, embedded_id);
    let secret = effective_credential(&config.slack_client_secret, embedded_secret);
    (id, secret)
}

/// Whether both OAuth client credentials resolve to non-empty values.
pub fn has_oauth_credentials(
    config: &Config,
    embedded_id: &Option<String>,
    embedded_secret: &Option<String>,
) -> (r: bool)
    ensures
        r == (effective_credential_spec(config.slack_client_id@, *embedded_id).len() > 0
            && effective_credential_spec(config.slack_client_secret@, *embedded_secret).len() > 0),
{
    let (id, secret) = get_oauth_credentials(config, embedded_id, embedded_secret);
    !id.as_str().is_empty() && !secret.as_str().is_empty()
}

/// The durable artifact of phase one: the fresh state token, the relay
/// callback the provider will redirect to, and the URL the browser opens.
#[derive(Debug, Clone, PartialEq, Eq)]
pub struct FlowStart {
    pub state_token: String,
    pub redirect_uri: String,
    pub authorize_url: String,
}

/// The provider's authorization URL for a client id, callback and state
/// token: the callback is percent-encoded, the state token rides verbatim.
pub open spec fn authorize_url_spec(cid: Seq<char>, redirect: Seq<char>, token: Seq<char>) -> Seq<
    char,
> {
    "https://slack.com/oauth/v2/authorize?client_id="@ + cid
        + "&user_scope=chat:write&redirect_uri="@ + percent_encoded(redirect) + "&state="@ + token
}

/// Phase one of the flow: refuses to start without a client id, then
/// builds the callback URL and the authorization URL around a fresh
/// 36-character state token. The harness then opens the browser.
pub fn start_flow(
    config: &Config,
    embedded_worker: &Option<String>,
    embedded_id: &Option<String>,
) -> (r: Result<FlowStart, CoreError>)
    ensures
        effective_credential_spec(config.slack_client_id@, *embedded_id).len() == 0 <==> r == Err::<
            FlowStart,
            CoreError,
        >(CoreError::CredentialsMissing),
        r is Ok <==> effective_credential_spec(config.slack_client_id@, *embedded_id).len() > 0,
        r matches Ok(f) ==> {
            &&& f.redirect_uri@ == worker_url_spec(*embedded_worker) + "/oauth/callback"@
            &&& f.state_token@.len() == 36
            &&& f.authorize_url@ == authorize_url_spec(
                effective_credential_spec(config.slack_client_id@, *embedded_id),
                f.redirect_uri@,
                f.state_token@,
            )
        },
{
    let client_id = effective_credential(&config.slack_client_id, embedded_id);
    if client_id.as_str().is_empty() {
        return Err(CoreError::CredentialsMissing);
    }
    let worker = get_oauth_worker_url(embedded_worker);
    let redirect_uri = join2(worker.as_str(), "/oauth/callback");
    let state_token = fresh_state_token();
    let encoded = url_encode(redirect_uri.as_str());
    let mut authorize_url = "https://slack.com/oauth/v2/authorize?client_id=".to_owned();
    authorize_url.append(client_id.as_str());
    authorize_url.append("&user_scope=chat:write&redirect_uri=");
    authorize_url.append(encoded.as_str());
    authorize_url.append("&state=");
    authorize_url.append(state_token.as_str());
    proof {
        assert(authorize_url@ =~= authorize_url_spec(client_id@, redirect_uri@, state_token@));
    }
    Ok(FlowStart { state_token, redirect_uri, authorize_url })
}

/// The relay's retrieval endpoint for a given state token.
pub open spec fn retrieve_url_spec(worker: Seq<char>, token: Seq<char>) -> Seq<char> {
    worker + "/oauth/retrieve?state="@ + token
}

/// Builds the retrieval URL polled during phase two.
pub fn retrieve_url(worker: &str, token: &str) -> (r: String)
    ensures
        r@ == retrieve_url_spec(worker@, token@),
{
    let mut url = worker.to_owned();
    url.append("/oauth/retrieve?state=");
    url.append(token);
    proof {
        assert(url@ =~= retrieve_url_spec(worker@, token@));
    }
    url
}

/// Distinct state tokens poll distinct retrieval URLs, so one flow can
/// never complete on a code the relay delivered for another flow's token.
pub proof fn lemma_distinct_tokens_distinct_polls(worker: Seq<char>, t1: Seq<char>, t2: Seq<char>)
    requires
        t1 != t2,
    ensures
        retrieve_url_spec(worker, t1) != retrieve_url_spec(worker, t2),
{
    let p = worker + "/oauth/retrieve?state="@;
    if retrieve_url_spec(worker, t1) == retrieve_url_spec(worker, t2) {
        assert((p + t1).len() == (p + t2).len());
        assert(t1.len() == t2.len());
        assert(t1 =~= (p + t1).subrange(p.len() as int, (p + t1).len() as int));
        assert(t2 =~= (p + t2).subrange(p.len() as int, (p + t2).len() as int));
        assert(false);
    }
}

/// The relay's decoded reply to one retrieval attempt.
#[derive(Debug, Clone, PartialEq, Eq)]
pub struct RetrieveReply {
    pub code: Option<String>,
    pub error: Option<String>,
}

/// One observed outcome of a retrieval attempt, as the harness saw it.
#[derive(Debug, Clone, PartialEq, Eq)]
pub enum PollEvent {
    /// The relay answered with success; `None` means the body could not
    /// be decoded, which counts as "not yet available" like any other
    /// attempt that delivers no code.
    Response(Option<RetrieveReply>),
    /// The relay answered non-success, or the request failed outright.
    Unavailable,
}

/// What one poll attempt decides.
#[derive(Debug, Clone, PartialEq, Eq)]
pub enum PollStep {
    /// A non-empty code arrived: polling is over.
    Done(String),
    /// Not yet available: keep polling.
    Again,
}

/// The code delivered by an attempt, if it delivered one: a successful
/// reply whose `code` field is a non-empty string.
pub open spec fn step_done_spec(ev: PollEvent) -> Option<Seq<char>> {
    match ev {
        PollEvent::Response(Some(reply)) => match reply.code {
            Some(c) => if c@.len() > 0 {
                Some(c@)
            } else {
                None
            },
            None => None,
        },
        _ => None,
    }
}

/// Decides one poll attempt: a delivered non-empty code ends polling;
/// everything else — non-success, transport errors, undecodable success
/// replies, absent or empty codes — means "not yet available".
pub fn poll_step(ev: PollEvent) -> (r: PollStep)
    ensures
        match step_done_spec(ev) {
            Some(c) => r matches PollStep::Done(s) && s@ == c,
            None => r == PollStep::Again,
        },
{
    match ev {
        PollEvent::Response(Some(reply)) => match reply.code {
            Some(c) => {
                if !c.as_str().is_empty() {
                    PollStep::Done(c)
                } else {
                    PollStep::Again
                }
            },
            None => PollStep::Again,
        },
        PollEvent::Response(None) => PollStep::Again,
        PollEvent::Unavailable => PollStep::Again,
    }
}

/// The outcome of the bounded polling loop from attempt `i` on: the first
/// delivered code wins, and exhausting the budget times the flow out.
pub open spec fn poll_from_spec(events: Seq<PollEvent>, i: int) -> Result<Seq<char>, CoreError>
    decreases events.len() - i,
{
    if i < 0 || i >= events.len() {
        Err(CoreError::AuthorizationTimeout)
    } else {
        match step_done_spec(events[i]) {
            Some(c) => Ok(c),
            None => poll_from_spec(events, i + 1),
        }
    }
}

/// Runs the polling policy over an observed sequence of attempt outcomes,
/// one entry per attempt, at most the fixed budget many.
pub fn run_poll(events: &Vec<PollEvent>) -> (r: Result<String, CoreError>)
    ensures
        match poll_from_spec(events@, 0) {
            Ok(c) => r matches Ok(s) && s@ == c,
            Err(e) => r == Err::<String, CoreError>(e),
        },
{
    let mut i: usize = 0;
    while i < events.len()
        invariant
            i <= events@.len(),
            poll_from_spec(events@, 0) == poll_from_spec(events@, i as int),
        decreases events@.len() - i,
    {
        match &events[i] {
            PollEvent::Response(Some(reply)) => match &reply.code {
                Some(c) => {
                    if !c.as_str().is_empty() {
                        return Ok(c.clone());
                    }
                },
                None => (),
            },
            PollEvent::Response(None) => (),
            PollEvent::Unavailable => (),
        }
        i = i + 1;
    }
    Err(CoreError::AuthorizationTimeout)
}

/// A relay that never delivers a code — every attempt unavailable,
/// undecodable, code absent or empty — exhausts the whole budget and
/// times the flow out.
pub proof fn lemma_poll_times_out(events: Seq<PollEvent>)
    requires
        forall|i: int| 0 <= i < events.len() ==> step_done_spec(#[trigger] events[i]) is None,
    ensures
        poll_from_spec(events, 0) == Err::<Seq<char>, CoreError>(CoreError::AuthorizationTimeout),
{
    lemma_poll_times_out_from(events, 0);
}

proof fn lemma_poll_times_out_from(events: Seq<PollEvent>, i: int)
    requires
        0 <= i,
        forall|j: int| i <= j < events.len() ==> step_done_spec(#[trigger] events[j]) is None,
    ensures
        poll_from_spec(events, i) == Err::<Seq<char>, CoreError>(CoreError::AuthorizationTimeout),
    decreases events.len() - i,
{
    if i < events.len() {
        lemma_poll_times_out_from(events, i + 1);
    }
}

/// A relay that withholds the code for every attempt before `k` and
/// delivers it on attempt `k` completes the flow with exactly that code —
/// in particular on the very last attempt of the budget.
pub proof fn lemma_poll_succeeds_at(events: Seq<PollEvent>, k: int, c: Seq<char>)
    requires
        0 <= k < events.len(),
        forall|i: int| 0 <= i < k ==> step_done_spec(#[trigger] events[i]) is None,
        step_done_spec(events[k]) == Some(c),
    ensures
        poll_from_spec(events, 0) == Ok::<Seq<char>, CoreError>(c),
{
    lemma_poll_succeeds_from(events, 0, k, c);
}

proof fn lemma_poll_succeeds_from(events: Seq<PollEvent>, i: int, k: int, c: Seq<char>)
    requires
        0 <= i <= k < events.len(),
        forall|j: int| i <= j < k ==> step_done_spec(#[trigger] events[j]) is None,
        step_done_spec(events[k]) == Some(c),
    ensures
        poll_from_spec(events, i) == Ok::<Seq<char>, CoreError>(c),
    decreases k - i,
{
    if i < k {
        lemma_poll_succeeds_from(events, i + 1, k, c);
    }
}

/// The provider's token-exchange endpoint.
pub fn token_endpoint_url() -> (r: &'static str)
    ensures
        r@ == "https://slack.com/api/oauth.v2.access"@,
{
    "https://slack.com/api/oauth.v2.access"
}

/// Builds the form body of the code-for-token exchange: exactly the four
/// pairs the provider expects, with the resolved client credentials.
pub fn exchange_request(
    config: &Config,
    embedded_id: &Option<String>,
    embedded_secret: &Option<String>,
    code: &str,
    redirect_uri: &str,
) -> (r: Vec<(String, String)>)
    ensures
        r@.len() == 4,
        r@[0].0@ == "client_id"@,
        r@[0].1@ == effective_credential_spec(config.slack_client_id@, *embedded_id),
        r@[1].0@ == "client_secret"@,
        r@[1].1@ == effective_credential_spec(config.slack_client_secret@, *embedded_secret),
        r@[2].0@ == "code"@,
        r@[2].1@ == code@,
        r@[3].0@ == "redirect_uri"@,
        r@[3].1@ == redirect_uri@,
{
    let (client_id, client_secret) = get_oauth_credentials(config, embedded_id, embedded_secret);
    let mut form: Vec<(String, String)> = Vec::new();
    form.push(("client_id".to_owned(), client_id));
    form.push(("client_secret".to_owned(), client_secret));
    form.push(("code".to_owned(), code.to_owned()));
    form.push(("redirect_uri".to_owned(), redirect_uri.to_owned()));
    form
}

/// The provider's decoded reply to the code-for-token exchange.
#[derive(Debug, Clone, PartialEq, Eq)]
pub struct ExchangeReply {
    /// The provider's own success flag.
    pub ok: bool,
    /// The provider's reported error text, when `ok` is false.
    pub error: Option<String>,
    /// The authorized user's access token, when one was granted.
    pub user_token: Option<String>,
}

/// Judges the token exchange: a rejected exchange carries the provider's
/// error text (or a fixed fallback), a granted one must carry the user
/// token, and only then does the flow hold a token.
pub fn exchange_outcome(reply: ExchangeReply) -> (r: Result<String, CoreError>)
    ensures
        !reply.ok ==> (r matches Err(e) && e matches CoreError::TokenExchangeFailed(m) && m@ == (
        match reply.error {
            Some(t) => t@,
            None => "unknown error"@,
        })),
        reply.ok && reply.user_token is None ==> r == Err::<String, CoreError>(
            CoreError::TokenMissing,
        ),
        reply.ok ==> (reply.user_token matches Some(t) ==> r matches Ok(tok) && tok@ == t@),
{
    if !reply.ok {
        let detail = match reply.error {
            Some(t) => t,
            None => "unknown error".to_owned(),
        };
        Err(CoreError::TokenExchangeFailed(detail))
    } else {
        match reply.user_token {
            Some(t) => Ok(t),
            None => Err(CoreError::TokenMissing),
        }
    }
}

/// The provider's decoded reply to the identity lookup.
#[derive(Debug, Clone, PartialEq, Eq)]
pub struct IdentityReply {
    pub ok: bool,
    pub name: Option<String>,
}

/// The display name shown when the identity lookup fails in any way.
pub open spec fn placeholder_name_spec() -> Seq<char> {
    "Authenticated User"@
}

/// Resolves the display name from the best-effort identity lookup: any
/// failure — no reply, a refused reply, a nameless one — falls back to
/// the fixed placeholder rather than failing the flow.
pub fn resolve_user_name(identity: Option<IdentityReply>) -> (r: String)
    ensures
        match identity {
            Some(reply) => if reply.ok && reply.name is Some {
                reply.name matches Some(n) && r@ == n@
            } else {
                r@ == placeholder_name_spec()
            },
            None => r@ == placeholder_name_spec(),
        },
{
    match identity {
        Some(reply) => {
            if reply.ok {
                match reply.name {
                    Some(n) => n,
                    None => "Authenticated User".to_owned(),
                }
            } else {
                "Authenticated User".to_owned()
            }
        },
        None => "Authenticated User".to_owned(),
    }
}

/// Commits a completed flow into the configuration: the user token and
/// display name are stored, sending as the user is switched on, and every
/// other field is left exactly as it was. The harness persists the result.
pub fn commit_oauth(config: &mut Config, user_token: String, user_name: String)
    ensures
        final(config).slack_user_token@ == user_token@,
        final(config).slack_user_name@ == user_name@,
        final(config).send_as_user,
        final(config).slack_bot_token == old(config).slack_bot_token,
        final(config).slack_app_token == old(config).slack_app_token,
        final(config).slack_signing_secret == old(config).slack_signing_secret,
        final(config).lark_webhook_url == old(config).lark_webhook_url,
        final(config).lark_app_id == old(config).lark_app_id,
        final(config).lark_app_secret == old(config).lark_app_secret,
        final(config).default_slack_channel == old(config).default_slack_channel,
        final(config).slack_client_id == old(config).slack_client_id,
        final(config).slack_client_secret == old(config).slack_client_secret,
{
    config.slack_user_token = user_token;
    config.slack_user_name = user_name;
    config.send_as_user = true;
}

} // verus!
