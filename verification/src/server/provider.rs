//! Provider harness request bodies, the stream request they describe, and
//! the HTTP answer to a provider failure.

use vstd::prelude::*;
use crate::ids::AccountId;
use crate::server::http_error::HttpError;
use crate::text::{decimal, decimal_string};

verus! {

/// Request body for the manual stream endpoint.
#[derive(Debug)]
pub struct StreamBody {
    /// Provider id (e.g. `anthropic`, `openai`).
    pub provider: String,
    /// Model id.
    pub model: String,
    /// The user prompt text.
    pub prompt: String,
    /// Optional max tokens cap.
    pub max_tokens: Option<u32>,
}

/// Request body for selecting the active provider account/org.
#[derive(Debug)]
pub struct UseAccountBody {
    /// Persisted account id to activate.
    pub account_id: AccountId,
    /// Optional persisted org id for that account.
    pub active_org_id: Option<String>,
}

/// Request body for OAuth callback completion.
#[derive(Debug)]
pub struct OAuthCallbackBody {
    /// Selected auth-method index.
    pub method: usize,
    /// OAuth authorization code, when required.
    pub code: Option<String>,
}

/// Token cap of a harness stream request: the body's cap, 1024 when absent.
pub fn stream_max_tokens(body: &StreamBody) -> (r: u32)
    ensures
        r == (match body.max_tokens {
            Some(n) => n,
            None => 1024u32,
        }),
{
    match body.max_tokens {
        Some(n) => n,
        None => 1024,
    }
}

/// Whether the manual stream endpoint takes a request: 403 `harness
/// disabled` unless the harness is on, else 404 `unknown provider:
/// {provider}` when no provider of that id is registered.
pub fn stream_admission(harness: bool, provider_found: bool, provider: &str) -> (r: Result<(), (u16, String)>)
    ensures
        !harness ==> (r matches Err((403, m)) && m@ == "harness disabled"@),
        harness && !provider_found ==> (r matches Err((404, m)) && m@ == "unknown provider: "@ + provider@),
        harness && provider_found ==> r is Ok,
{
    if !harness {
        return Err((403, String::from_str("harness disabled")));
    }
    if !provider_found {
        return Err((404, String::from_str("unknown provider: ").concat(provider)));
    }
    Ok(())
}

/// The account persisted when an OAuth callback completes.
#[derive(Debug)]
pub struct PersistAccountInput {
    pub id: AccountId,
    pub email: String,
    pub url: String,
    pub access_token: String,
    pub refresh_token: String,
    pub token_expiry: Option<i64>,
    pub active_org_id: Option<String>,
    pub time_created: i64,
    pub time_updated: i64,
}

/// The account an OAuth callback for `provider` persists at time `now`:
/// placeholder contact and tokens named after the provider, expiring an
/// hour later.
pub fn oauth_account_input(provider: &str, id: AccountId, now: i64) -> (r: PersistAccountInput)
    requires
        now <= i64::MAX - 3_600_000,
    ensures
        r.id == id,
        r.email@ == provider@ + "@opencode.dev"@,
        r.url@ == "https://"@ + provider@ + ".opencode.dev"@,
        r.access_token@ == provider@ + "-access-token"@,
        r.refresh_token@ == provider@ + "-refresh-token"@,
        r.token_expiry == Some((now + 3_600_000) as i64),
        r.active_org_id is None,
        r.time_created == now,
        r.time_updated == now,
{
    PersistAccountInput {
        id,
        email: String::from_str(provider).concat("@opencode.dev"),
        url: String::from_str("https://").concat(provider).concat(".opencode.dev"),
        access_token: String::from_str(provider).concat("-access-token"),
        refresh_token: String::from_str(provider).concat("-refresh-token"),
        token_expiry: Some(now + 3_600_000),
        active_org_id: None,
        time_created: now,
        time_updated: now,
    }
}

/// A provider failure, as far as the HTTP answer reads it.
#[derive(Debug)]
pub enum ProviderFailure {
    /// Authentication failed.
    Auth { msg: String },
    /// The prompt exceeds the model's context.
    ContextLength { model: String },
    /// The provider rate-limited the request, maybe with a retry delay in
    /// seconds.
    RateLimit { provider: String, retry_after: Option<u64> },
    /// An HTTP failure with its message.
    Http { msg: String },
    /// A stream failure with its message.
    Stream { msg: String },
    /// The circuit breaker of a provider model is open.
    CircuitOpen { provider: String, model: String },
    /// Any other failure, by its text.
    Other { text: String },
}

/// The HTTP answer to a provider failure: authentication and context
/// length are client errors, rate limits and open circuits are conflicts,
/// everything else is internal.
pub fn map_provider_error(err: ProviderFailure) -> (r: HttpError)
    ensures
        match err {
            ProviderFailure::Auth { msg } => r.status_spec() == 400 && r.msg_spec() == msg@,
            ProviderFailure::ContextLength { model } => r.status_spec() == 400
                && r.msg_spec() == "context length exceeded for model "@ + model@,
            ProviderFailure::RateLimit { provider, retry_after } => r.status_spec() == 409
                && r.msg_spec() == "rate limited by "@ + provider@ + match retry_after {
                    Some(secs) => " (retry after "@ + decimal(secs as nat) + "s)"@,
                    None => Seq::<char>::empty(),
                },
            ProviderFailure::Http { msg } => r.status_spec() == 500 && r.msg_spec() == msg@,
            ProviderFailure::Stream { msg } => r.status_spec() == 500 && r.msg_spec() == msg@,
            ProviderFailure::CircuitOpen { provider, model } => r.status_spec() == 409
                && r.msg_spec() == "circuit breaker open for "@ + provider@ + "/"@ + model@,
            ProviderFailure::Other { text } => r.status_spec() == 500 && r.msg_spec() == text@,
        },
{
    match err {
        ProviderFailure::Auth { msg } => HttpError::bad_request(msg),
        ProviderFailure::ContextLength { model } => {
            HttpError::bad_request(String::from_str("context length exceeded for model ").concat(model.as_str()))
        },
        ProviderFailure::RateLimit { provider, retry_after } => {
            let head = String::from_str("rate limited by ").concat(provider.as_str());
            match retry_after {
                Some(secs) => {
                    let n = decimal_string(secs);
                    HttpError::conflict(head.concat(" (retry after ").concat(n.as_str()).concat("s)"))
                },
                None => {
                    assert(head@ + Seq::<char>::empty() =~= head@);
                    HttpError::conflict(head)
                },
            }
        },
        ProviderFailure::Http { msg } => HttpError::internal(msg),
        ProviderFailure::Stream { msg } => HttpError::internal(msg),
        ProviderFailure::CircuitOpen { provider, model } => HttpError::conflict(
            String::from_str("circuit breaker open for ").concat(provider.as_str()).concat("/").concat(model.as_str()),
        ),
        ProviderFailure::Other { text } => HttpError::internal(text),
    }
}

} // verus!
