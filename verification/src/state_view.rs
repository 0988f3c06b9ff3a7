//! The capabilities that the storage layer supplies.

use vstd::prelude::*;
use crate::account_address::AccountAddress;
use crate::account_config::{AccountResource, CRSNResource};
use crate::error::StorageError;

verus! {

/// Read access to the resources of accounts in one ledger snapshot.
///
/// `Ok(None)` says that the account has no such resource. An error says that
/// the snapshot could not be read.
pub trait AccountView {
    /// The resource of `address` that holds its window of nonces.
    fn get_crsn_resource(&self, address: &AccountAddress) -> Result<
        Option<CRSNResource>,
        StorageError,
    >;

    /// The classic account resource of `address`.
    fn get_account_resource(&self, address: &AccountAddress) -> Result<
        Option<AccountResource>,
        StorageError,
    >;
}

/// The provider of ledger snapshots.
pub trait DbReader {
    /// A read-only view of the ledger as of one committed version.
    type StateView;

    /// The latest committed snapshot, or the error of the storage layer.
    fn latest_state_checkpoint_view(&self) -> Result<Self::StateView, StorageError>;
}

} // verus!
