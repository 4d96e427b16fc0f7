//! Wallet-details DTO shape.

use vstd::prelude::*;

verus! {

/// Response shape of the wallet-info operation.
#[derive(Debug, Clone, PartialEq, Eq, Hash)]
pub struct WalletDetails {
    pub name: String,
    pub balance: u64,
}

} // verus!
