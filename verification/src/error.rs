//! Operational errors: the evaluation itself could not be completed.

use vstd::prelude::*;
use vstd::string::*;

verus! {

/// A named point at which a fault can be injected.
#[derive(Clone, Copy, Debug, PartialEq, Eq, Structural)]
pub enum FailPoint {
    /// The entry of transaction validation.
    ValidateTransaction,
    /// The entry of account sequence resolution.
    GetAccountSequenceNumber,
}

/// A failure of the storage layer, with its description.
#[derive(Clone, Debug, PartialEq, Eq)]
pub struct StorageError {
    /// What the storage layer reported.
    pub message: String,
}

/// Why an operation of a validator could not be completed.
///
/// None of these says anything about the transaction: it was not evaluated.
#[derive(Clone, Debug, PartialEq, Eq)]
pub enum Error {
    /// A fault was injected at the fail point.
    Injected(FailPoint),
    /// The provider could not hand out the latest snapshot.
    SnapshotUnavailable(StorageError),
    /// A resource is in the snapshot and could not be read.
    StateRead(StorageError),
    /// The validator does not implement the operation.
    Unimplemented,
}

impl Error {
    /// What the error says.
    pub open spec fn spec_message(self) -> Seq<char> {
        match self {
            Error::Injected(FailPoint::ValidateTransaction) => {
                "Injected error in vm_validator::validate_transaction"@
            },
            Error::Injected(FailPoint::GetAccountSequenceNumber) => {
                "Injected error in get_account_sequence_number"@
            },
            Error::SnapshotUnavailable(cause) => "Get db view cannot fail: "@ + cause.message@,
            Error::StateRead(cause) => cause.message@,
            Error::Unimplemented => "not implemented"@,
        }
    }

    /// What the error says.
    pub fn message(&self) -> (message: String)
        ensures
            message@ == self.spec_message(),
    {
        match self {
            Error::Injected(FailPoint::ValidateTransaction) => String::from_str(
                "Injected error in vm_validator::validate_transaction",
            ),
            Error::Injected(FailPoint::GetAccountSequenceNumber) => String::from_str(
                "Injected error in get_account_sequence_number",
            ),
            Error::SnapshotUnavailable(cause) => String::from_str(
                "Get db view cannot fail: ",
            ).concat(cause.message.as_str()),
            Error::StateRead(cause) => cause.message.clone(),
            Error::Unimplemented => String::from_str("not implemented"),
        }
    }
}

impl StorageError {
    /// The failure that the storage layer describes as `message`.
    pub fn new(message: String) -> (error: Self)
        ensures
            error.message == message,
    {
        StorageError { message }
    }
}

} // verus!
