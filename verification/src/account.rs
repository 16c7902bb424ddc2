//! What an operation sees of an account it refers to.

use vstd::prelude::*;
use crate::address::Address;

verus! {

/// A referenced account as it stands when the operation begins.
#[derive(Clone, Debug, PartialEq, Eq)]
pub struct AccountInfo {
    /// The account's address.
    pub key: Address,
    /// Whether the account signed the operation.
    pub is_signer: bool,
    /// The balance that keeps the account alive.
    pub lamports: u64,
    /// The bytes stored in the account.
    pub data: Vec<u8>,
    /// The program that owns the account.
    pub owner: Address,
}

} // verus!
