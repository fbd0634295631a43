//! The OAuth provider client, as far as the coordinator calls it directly.
//!
//! Nothing here is verified: each function states what is taken on trust of
//! the `anthropic_auth` crate. A new authorization request draws fresh random
//! values, so nothing is promised of what it holds.

use crate::oauth::{FlowMode, FlowStart};
use anthropic_auth::{AnthropicAuthError, AsyncOAuthClient, OAuthConfig, OAuthMode};
use vstd::prelude::*;

verus! {

#[verifier::external_type_specification]
#[verifier::external_body]
pub struct ExOAuthConfig(OAuthConfig);

#[verifier::external_type_specification]
#[verifier::external_body]
pub struct ExAsyncOAuthClient(AsyncOAuthClient);

#[verifier::external_type_specification]
#[verifier::external_body]
pub struct ExAnthropicAuthError(AnthropicAuthError);

/// Calls `OAuthConfig::default`, which gives the provider's standard client
/// identifier and redirect address. Trusted: it returns.
#[verifier::external_body]
pub(crate) fn default_config() -> OAuthConfig {
    OAuthConfig::default()
}

/// Calls `AsyncOAuthClient::new`. Trusted: it returns, with a client or an
/// error.
#[verifier::external_body]
pub(crate) fn new_client(config: OAuthConfig) -> Result<AsyncOAuthClient, AnthropicAuthError> {
    AsyncOAuthClient::new(config)
}

/// Calls `AsyncOAuthClient::start_flow` in the given mode and hands over the
/// authorization URL, the state token and the verifier that it made. Trusted:
/// it returns, with a flow or an error.
#[verifier::external_body]
pub(crate) fn start_flow(client: &AsyncOAuthClient, mode: FlowMode) -> Result<
    FlowStart,
    AnthropicAuthError,
> {
    let mode = match mode {
        FlowMode::Max => OAuthMode::Max,
        FlowMode::Console => OAuthMode::Console,
    };
    match client.start_flow(mode) {
        Ok(flow) => Ok(
            FlowStart {
                authorization_url: flow.authorization_url,
                state: flow.state,
                verifier: flow.verifier,
            },
        ),
        Err(error) => Err(error),
    }
}

/// Calls `to_string` on the provider's error, which gives its description.
/// Trusted: it returns.
#[verifier::external_body]
pub(crate) fn describe(error: &AnthropicAuthError) -> String {
    error.to_string()
}

} // verus!
