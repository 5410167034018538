use vstd::prelude::*;
use crate::token::TokenId;

verus! {

/// One outbound value transfer the host is asked to perform: `amount` units
/// of `token` (sub-unit `nonce`) to the address `to`.
#[derive(Debug, PartialEq, Eq)]
pub struct Transfer {
    pub to: u64,
    pub token: TokenId,
    pub nonce: u64,
    pub amount: u64,
}

/// One asynchronous host call the contract hands back to its environment.
#[derive(Debug, PartialEq, Eq)]
pub enum HostCall {
    /// Register a new non-fungible collection with the system registrar,
    /// paying `cost` as collateral; the result arrives through the callback.
    RegisterCollection { cost: u64, name: Vec<u8>, ticker: Vec<u8> },
    /// Grant this contract mint and burn capability on a collection.
    SetMintBurnRoles { collection: TokenId },
    /// Hand ownership of a collection to a new address.
    TransferCollectionOwnership { collection: TokenId, new_owner: u64 },
    /// Burn `amount` units of a token sub-unit.
    Burn { token: TokenId, nonce: u64, amount: u64 },
}

} // verus!
