//! Invoice DTO shapes passed through the dispatcher by the facade layer.

use vstd::prelude::*;

verus! {

/// Response shape of invoice creation: the bolt11 payment request and its
/// payment hash.
#[derive(Debug, Clone, PartialEq, Eq, Hash)]
pub struct CreateInvoiceResponse {
    pub payment_request: String,
    pub payment_hash: String,
}

/// Response shape of paying an invoice.
#[derive(Debug, Clone, PartialEq, Eq, Hash)]
pub struct PaymentInvoiceResponse {
    pub payment_hash: String,
}

/// Request shape of invoice creation. `expiry` is in seconds.
#[derive(Debug, Clone, PartialEq, Eq, Hash)]
pub struct CreateInvoiceRequest {
    pub unit: String,
    pub amount: String,
    pub memo: Option<String>,
    pub expiry: Option<u64>,
    pub webhook: Option<String>,
    pub internal: Option<bool>,
    pub out: bool,
}

/// The value of the boolean field `paid` of the JSON object the body parses
/// to, or `None` where the body is not a JSON object holding such a field.
pub uninterp spec fn paid_field_of(body: Seq<char>) -> Option<bool>;

/// Relies on `serde_json::from_str`, `serde_json::Value::get` and
/// `serde_json::Value::as_bool`: parsing a JSON document and reading one
/// boolean field from the resulting object is a pure function of the input
/// text.
#[verifier::external_body]
fn extract_paid(body: &str) -> (r: Option<bool>)
    ensures
        r == paid_field_of(body@),
{
    match serde_json::from_str::<serde_json::Value>(body) {
        Ok(v) => v.get("paid").and_then(|p| p.as_bool()),
        Err(_) => None,
    }
}

/// Reads the settlement flag out of a payment-status response body: true
/// exactly where the body is a JSON object whose `paid` field is `true`. A
/// missing field, a non-boolean value or an unparsable body count as unpaid.
pub fn invoice_paid(body: &str) -> (r: bool)
    ensures
        r == (paid_field_of(body@) == Some(true)),
{
    match extract_paid(body) {
        Some(true) => true,
        _ => false,
    }
}

} // verus!
