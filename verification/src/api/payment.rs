//! Payment-lookup DTO shapes passed through the dispatcher by the facade
//! layer.

use vstd::prelude::*;

verus! {

#[verifier::external_type_specification]
#[verifier::external_body]
pub struct ExValue(serde_json::Value);

/// Detail record of one payment as the gateway reports it. `extra` carries
/// whatever additional JSON the gateway includes, opaque to this library.
#[derive(Debug)]
pub struct PaymentDetails {
    pub status: String,
    pub pending: bool,
    pub checking_id: String,
    pub amount: u64,
    pub fee: u64,
    pub memo: String,
    pub time: u64,
    pub bolt11: String,
    pub preimage: String,
    pub payment_hash: String,
    pub expiry: u64,
    pub extra: serde_json::Value,
    pub webhook: Option<String>,
    pub webhook_status: Option<String>,
}

/// Response shape of the payment-lookup operation.
#[derive(Debug)]
pub struct Payment {
    pub paid: bool,
    pub preimage: String,
    pub payment_detail: PaymentDetails,
}

} // verus!
