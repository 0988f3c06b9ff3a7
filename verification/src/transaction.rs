//! Signed transactions and the verdict of validating one.

use vstd::prelude::*;
use crate::account_address::AccountAddress;

verus! {

/// Why a transaction is not eligible for admission.
#[allow(non_camel_case_types)]
#[derive(Clone, Copy, Debug, PartialEq, Eq, Structural)]
pub enum StatusCode {
    /// The validation failed for a reason that no other code names.
    UNKNOWN_VALIDATION_STATUS,
    /// The signature does not match the transaction.
    INVALID_SIGNATURE,
    /// The authentication key does not match the sender's account.
    INVALID_AUTH_KEY,
    /// The sequence number was used already.
    SEQUENCE_NUMBER_TOO_OLD,
    /// The sequence number is ahead of what the account accepts.
    SEQUENCE_NUMBER_TOO_NEW,
    /// The sender cannot pay the maximum transaction fee.
    INSUFFICIENT_BALANCE_FOR_TRANSACTION_FEE,
    /// The expiration time of the transaction has passed.
    TRANSACTION_EXPIRED,
    /// The sending account is not in the ledger.
    SENDING_ACCOUNT_DOES_NOT_EXIST,
}

/// The verdict on one transaction.
///
/// A verdict without a status admits the transaction. A status names the reason
/// of a rejection. A rejection is a verdict, never an error.
#[derive(Clone, Copy, Debug, PartialEq, Eq)]
pub struct VMValidatorResult {
    /// The reason of the rejection, if the transaction is rejected.
    pub status: Option<StatusCode>,
    /// Advisory cost estimate by which the transaction is prioritised.
    pub score: u64,
}

impl VMValidatorResult {
    /// The verdict with the given status and score.
    pub fn new(status: Option<StatusCode>, score: u64) -> (result: Self)
        ensures
            result == (VMValidatorResult { status, score }),
    {
        VMValidatorResult { status, score }
    }

    /// True if the verdict admits the transaction.
    pub open spec fn is_admitted(self) -> bool {
        self.status is None
    }

    /// The reason of the rejection, if the transaction is rejected.
    pub fn status(&self) -> (status: Option<StatusCode>)
        ensures
            status == self.status,
    {
        self.status
    }

    /// The advisory cost estimate.
    pub fn score(&self) -> (score: u64)
        ensures
            score == self.score,
    {
        self.score
    }
}

/// A transaction together with the outcome of checking its signature.
///
/// The cryptographic check is made where the transaction enters the node. The
/// transaction carries its outcome, so that validation reads it as a plain
/// value.
#[derive(Clone, Debug, PartialEq, Eq)]
pub struct SignedTransaction {
    /// The account that sends the transaction.
    pub sender: AccountAddress,
    /// The sequence number or nonce of the transaction.
    pub sequence_number: u64,
    /// The serialised payload.
    pub payload: Vec<u8>,
    /// Time in seconds after which the transaction is no longer valid.
    pub expiration_timestamp_secs: u64,
    /// True if the signature matches the sender and the transaction.
    pub signature_valid: bool,
}

impl SignedTransaction {
    /// A transaction of `sender` with the given fields.
    pub fn new(
        sender: AccountAddress,
        sequence_number: u64,
        payload: Vec<u8>,
        expiration_timestamp_secs: u64,
        signature_valid: bool,
    ) -> (txn: Self)
        ensures
            txn == (SignedTransaction {
                sender,
                sequence_number,
                payload,
                expiration_timestamp_secs,
                signature_valid,
            }),
    {
        SignedTransaction {
            sender,
            sequence_number,
            payload,
            expiration_timestamp_secs,
            signature_valid,
        }
    }

    /// The account that sends the transaction.
    pub fn sender(&self) -> (sender: AccountAddress)
        ensures
            sender == self.sender,
    {
        self.sender
    }

    /// The sequence number or nonce of the transaction.
    pub fn sequence_number(&self) -> (sequence_number: u64)
        ensures
            sequence_number == self.sequence_number,
    {
        self.sequence_number
    }

    /// Time in seconds after which the transaction is no longer valid.
    pub fn expiration_timestamp_secs(&self) -> (secs: u64)
        ensures
            secs == self.expiration_timestamp_secs,
    {
        self.expiration_timestamp_secs
    }

    /// True if the signature matches the sender and the transaction.
    pub fn check_signature(&self) -> (valid: bool)
        ensures
            valid == self.signature_valid,
    {
        self.signature_valid
    }
}

} // verus!
