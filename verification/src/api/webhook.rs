//! Webhook Listener core: parses an inbound payment-settlement callback body
//! and hands the correlation identifier to the bounded notification channel.

use vstd::prelude::*;

verus! {

#[verifier::external_type_specification]
#[verifier::external_body]
#[verifier::reject_recursive_types(T)]
pub struct ExSender<T>(tokio::sync::mpsc::Sender<T>);

/// State shared by every invocation of the webhook route: the producer side
/// of the notification channel.
pub struct WebhookState {
    pub sender: tokio::sync::mpsc::Sender<String>,
}

/// The correlation identifier carried by a webhook callback body: the value
/// of the string field `checking_id` of the JSON object the body parses to,
/// or `None` where the body is not a JSON object holding such a field.
pub uninterp spec fn checking_id_of(body: Seq<char>) -> Option<Seq<char>>;

/// Relies on `serde_json::from_str`, `serde_json::Value::get` and
/// `serde_json::Value::as_str`: parsing a JSON document and reading one
/// string field from the resulting object is a pure function of the input
/// text.
#[verifier::external_body]
fn extract_checking_id(body: &str) -> (r: Option<String>)
    ensures
        r matches Some(id) ==> checking_id_of(body@) == Some(id@),
        r is None ==> checking_id_of(body@) is None,
{
    match serde_json::from_str::<serde_json::Value>(body) {
        Ok(v) => v.get("checking_id").and_then(|c| c.as_str()).map(|s| String::from(s)),
        Err(_) => None,
    }
}

/// What one bounded, non-blocking send attempt on the notification channel
/// produced.
#[derive(Debug, Clone, Copy, PartialEq, Eq, Structural)]
pub enum SendOutcome {
    Sent,
    Full,
    Closed,
}

/// Relies on `tokio::sync::mpsc::Sender::try_send`: one bounded, non-blocking
/// send attempt that either enqueues the message in FIFO order or reports a
/// full or closed channel; which outcome occurs depends on the channel's
/// concurrent state.
#[verifier::external_body]
fn try_send_notification(sender: &tokio::sync::mpsc::Sender<String>, id: String) -> (r:
    SendOutcome) {
    match sender.try_send(id) {
        Ok(()) => SendOutcome::Sent,
        Err(tokio::sync::mpsc::error::TrySendError::Full(_)) => SendOutcome::Full,
        Err(tokio::sync::mpsc::error::TrySendError::Closed(_)) => SendOutcome::Closed,
    }
}

/// Webhook Listener: handles one inbound callback body and answers with the
/// HTTP status to return to the gateway. A body carrying a correlation
/// identifier is acknowledged with 200 whatever the channel send produced — a
/// full or closed channel is absorbed, never surfaced to the caller. A
/// malformed body pushes nothing and answers 422.
pub fn handle_invoice(sender: &tokio::sync::mpsc::Sender<String>, body: &str) -> (status: u16)
    ensures
        status == 200 <==> checking_id_of(body@) is Some,
        status == 422 <==> checking_id_of(body@) is None,
{
    match extract_checking_id(body) {
        Some(id) => {
            let _ = try_send_notification(sender, id);
            200
        },
        None => 422,
    }
}

} // verus!
