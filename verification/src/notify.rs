//! The notifier's checked half: building the sending handle, which stands
//! or falls with the webhook URL alone. The single outbound HTTP call is
//! made outside the library, through the handle built here.

use vstd::prelude::*;

use crate::config::SlackHook;

verus! {

/// Declares slack_hook2::Slack, the handle a delivery posts through, as an
/// opaque type.
#[verifier::external_type_specification]
#[verifier::external_body]
pub struct ExSlack(slack_hook2::Slack);

/// Declares slack_hook2::SlackError, the chat crate's error, as an opaque
/// type; the library maps it to its own DeliveryError.
#[verifier::external_type_specification]
#[verifier::external_body]
pub struct ExSlackError(slack_hook2::SlackError);

/// The ways one delivery attempt can fail.
#[derive(Clone, Copy, Debug, PartialEq, Eq, Structural)]
pub enum DeliveryError {
    /// The configured webhook URL is malformed.
    InvalidUrl,
    /// The network call failed or the endpoint rejected the payload.
    Failed,
}

/// Whether the chat crate accepts `s` as a webhook endpoint: it must parse
/// as an absolute URL naming a host.
pub uninterp spec fn accepts_webhook_url(s: Seq<char>) -> bool;

/// Relies on slack_hook2::Slack::new: builds the sending handle, succeeding
/// exactly when the URL string parses as an absolute URL with a host — a
/// fact of the string alone.
#[verifier::external_body]
fn slack_client(url: &str) -> (r: Result<slack_hook2::Slack, slack_hook2::SlackError>)
    ensures
        r is Ok <==> accepts_webhook_url(url@),
{
    slack_hook2::Slack::new(url)
}

/// Builds the handle that the delivery step posts through, or the delivery
/// error for a malformed webhook URL.
pub fn webhook_client(config: &SlackHook) -> (r: Result<slack_hook2::Slack, DeliveryError>)
    ensures
        r is Ok <==> accepts_webhook_url(config.url@),
        r is Err ==> r == Err::<slack_hook2::Slack, DeliveryError>(DeliveryError::InvalidUrl),
{
    match slack_client(config.url.as_str()) {
        Ok(s) => Ok(s),
        Err(_) => Err(DeliveryError::InvalidUrl),
    }
}

} // verus!
