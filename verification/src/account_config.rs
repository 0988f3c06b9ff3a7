//! The on-chain resources that decide how an account orders its transactions.

use vstd::prelude::*;

verus! {

/// The classic account resource, with its monotonically increasing counter.
#[derive(Clone, Copy, Debug, PartialEq, Eq, Structural)]
pub struct AccountResource {
    /// The sequence number that the next transaction of the account must carry.
    pub sequence_number: u64,
}

impl AccountResource {
    /// The account resource at `sequence_number`.
    pub fn new(sequence_number: u64) -> (resource: Self)
        ensures
            resource.sequence_number == sequence_number,
    {
        AccountResource { sequence_number }
    }

    /// The sequence number that the next transaction of the account must carry.
    pub fn sequence_number(&self) -> (sequence_number: u64)
        ensures
            sequence_number == self.sequence_number,
    {
        self.sequence_number
    }
}

/// The resource of an account that accepts nonces out of order within a window.
#[derive(Clone, Copy, Debug, PartialEq, Eq, Structural)]
pub struct CRSNResource {
    /// The smallest nonce that the account still accepts.
    pub min_nonce: u64,
    /// The number of nonces in the window.
    pub size: u32,
}

impl CRSNResource {
    /// The window of `size` nonces that starts at `min_nonce`.
    pub fn new(min_nonce: u64, size: u32) -> (resource: Self)
        ensures
            resource.min_nonce == min_nonce,
            resource.size == size,
    {
        CRSNResource { min_nonce, size }
    }

    /// The smallest nonce that the account still accepts.
    pub fn min_nonce(&self) -> (min_nonce: u64)
        ensures
            min_nonce == self.min_nonce,
    {
        self.min_nonce
    }

    /// The number of nonces in the window.
    pub fn size(&self) -> (size: u32)
        ensures
            size == self.size,
    {
        self.size
    }
}

/// How an account orders its transactions, and where it stands.
#[derive(Clone, Copy, Debug, PartialEq, Eq, Structural)]
pub enum AccountSequenceInfo {
    /// A counter: the next transaction must carry exactly this value.
    Sequential(u64),
    /// A sliding window: any unused nonce in `[min_nonce, min_nonce + size)` is
    /// accepted.
    NonContiguous {
        /// The smallest nonce that the account still accepts.
        min_nonce: u64,
        /// The number of nonces in the window.
        size: u32,
    },
}

} // verus!
