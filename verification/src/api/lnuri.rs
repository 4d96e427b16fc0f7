//! LNURL-pay DTO shapes passed through the dispatcher by the facade layer.

use vstd::prelude::*;

verus! {

/// Response shape of an LNURL payment.
#[derive(Debug, Clone, PartialEq, Eq, Hash)]
pub struct CreateLnurlResponse {
    pub details: String,
}

/// Request shape of an LNURL payment.
#[derive(Debug, Clone, PartialEq, Eq, Hash)]
pub struct CreateLnurlResquest {
    pub description_hash: String,
    pub callback: String,
    pub amount: u64,
    pub description: String,
    pub unit: String,
}

} // verus!
