//! A validator for tests that must not depend on a ledger.

use vstd::prelude::*;
use crate::account_address::{
    AccountAddress, ACCOUNT_DNE_TEST_ADD, INSUFFICIENT_BALANCE_TEST_ADD, INVALID_AUTH_KEY_TEST_ADD,
    INVALID_SIG_TEST_ADD, SEQ_NUMBER_TOO_NEW_TEST_ADD, SEQ_NUMBER_TOO_OLD_TEST_ADD,
    TXN_EXPIRATION_TIME_TEST_ADD,
};
use crate::error::Error;
use crate::on_chain_config::OnChainConfigPayload;
use crate::transaction::{SignedTransaction, StatusCode, VMValidatorResult};
use crate::vm_validator::{TransactionValidation, ValidationEngine};

verus! {

/// A validator without snapshot and without provider. Its verdict depends on
/// the signature check and on the sender alone.
#[derive(Clone, Copy, Debug)]
pub struct MockVMValidator;

/// The rejection that is bound to `sender`, if it is one of the seven reserved
/// senders.
pub open spec fn reserved_status(sender: Seq<u8>) -> Option<StatusCode> {
    if sender == ACCOUNT_DNE_TEST_ADD@ {
        Some(StatusCode::SENDING_ACCOUNT_DOES_NOT_EXIST)
    } else if sender == INVALID_SIG_TEST_ADD@ {
        Some(StatusCode::INVALID_SIGNATURE)
    } else if sender == INSUFFICIENT_BALANCE_TEST_ADD@ {
        Some(StatusCode::INSUFFICIENT_BALANCE_FOR_TRANSACTION_FEE)
    } else if sender == SEQ_NUMBER_TOO_NEW_TEST_ADD@ {
        Some(StatusCode::SEQUENCE_NUMBER_TOO_NEW)
    } else if sender == SEQ_NUMBER_TOO_OLD_TEST_ADD@ {
        Some(StatusCode::SEQUENCE_NUMBER_TOO_OLD)
    } else if sender == TXN_EXPIRATION_TIME_TEST_ADD@ {
        Some(StatusCode::TRANSACTION_EXPIRED)
    } else if sender == INVALID_AUTH_KEY_TEST_ADD@ {
        Some(StatusCode::INVALID_AUTH_KEY)
    } else {
        None
    }
}

/// True if `sender` is one of the seven reserved senders.
pub open spec fn is_reserved(sender: Seq<u8>) -> bool {
    ||| sender == ACCOUNT_DNE_TEST_ADD@
    ||| sender == INVALID_SIG_TEST_ADD@
    ||| sender == INSUFFICIENT_BALANCE_TEST_ADD@
    ||| sender == SEQ_NUMBER_TOO_NEW_TEST_ADD@
    ||| sender == SEQ_NUMBER_TOO_OLD_TEST_ADD@
    ||| sender == TXN_EXPIRATION_TIME_TEST_ADD@
    ||| sender == INVALID_AUTH_KEY_TEST_ADD@
}

/// The verdict of the mock on a transaction of `sender` whose signature check
/// gave `signature_valid`. A failed signature check is a rejection whoever the
/// sender is. The score is always 0.
pub open spec fn mock_outcome(signature_valid: bool, sender: Seq<u8>) -> VMValidatorResult {
    VMValidatorResult {
        status: if signature_valid {
            reserved_status(sender)
        } else {
            Some(StatusCode::INVALID_SIGNATURE)
        },
        score: 0,
    }
}

impl<S> ValidationEngine<S> for MockVMValidator {
    /// The mock: it reads nothing from `state_view`.
    fn new_for_validation(_state_view: &S) -> (vm: Self) {
        MockVMValidator
    }

    /// Admits every transaction, with score 0.
    fn validate(&self, _transaction: SignedTransaction, _state_view: &S) -> (outcome:
        VMValidatorResult)
        ensures
            outcome == (VMValidatorResult { status: None, score: 0 }),
    {
        VMValidatorResult::new(None, 0)
    }
}

impl TransactionValidation for MockVMValidator {
    type StateView = ();

    type ValidationInstance = MockVMValidator;

    /// Returns the verdict that [`mock_outcome`] gives. It never fails.
    fn validate_transaction(&self, txn: SignedTransaction) -> (validated: Result<
        VMValidatorResult,
        Error,
    >)
        ensures
            validated == Ok::<VMValidatorResult, Error>(
                mock_outcome(txn.signature_valid, txn.sender@),
            ),
    {
        if !txn.check_signature() {
            return Ok(VMValidatorResult::new(Some(StatusCode::INVALID_SIGNATURE), 0));
        }
        let sender = txn.sender();
        let ret = if sender == AccountAddress::new(ACCOUNT_DNE_TEST_ADD) {
            Some(StatusCode::SENDING_ACCOUNT_DOES_NOT_EXIST)
        } else if sender == AccountAddress::new(INVALID_SIG_TEST_ADD) {
            Some(StatusCode::INVALID_SIGNATURE)
        } else if sender == AccountAddress::new(INSUFFICIENT_BALANCE_TEST_ADD) {
            Some(StatusCode::INSUFFICIENT_BALANCE_FOR_TRANSACTION_FEE)
        } else if sender == AccountAddress::new(SEQ_NUMBER_TOO_NEW_TEST_ADD) {
            Some(StatusCode::SEQUENCE_NUMBER_TOO_NEW)
        } else if sender == AccountAddress::new(SEQ_NUMBER_TOO_OLD_TEST_ADD) {
            Some(StatusCode::SEQUENCE_NUMBER_TOO_OLD)
        } else if sender == AccountAddress::new(TXN_EXPIRATION_TIME_TEST_ADD) {
            Some(StatusCode::TRANSACTION_EXPIRED)
        } else if sender == AccountAddress::new(INVALID_AUTH_KEY_TEST_ADD) {
            Some(StatusCode::INVALID_AUTH_KEY)
        } else {
            None
        };
        Ok(VMValidatorResult::new(ret, 0))
    }

    /// The mock expects no reconfiguration: the operation always fails with
    /// [`Error::Unimplemented`].
    fn restart(&mut self, _config: OnChainConfigPayload) -> (restarted: Result<(), Error>)
        ensures
            restarted == Err::<(), Error>(Error::Unimplemented),
            *final(self) == *old(self),
    {
        Err(Error::Unimplemented)
    }

    /// Does nothing.
    fn notify_commit(&mut self) -> (notified: Result<(), Error>)
        ensures
            notified == Ok::<(), Error>(()),
            *final(self) == *old(self),
    {
        Ok(())
    }
}

/// A correctly signed transaction of a sender that is not reserved is
/// admitted.
pub proof fn lemma_unreserved_sender_is_admitted(txn: SignedTransaction)
    requires
        txn.signature_valid,
        !is_reserved(txn.sender@),
    ensures
        mock_outcome(txn.signature_valid, txn.sender@).is_admitted(),
{
}

/// A correctly signed transaction of a reserved sender is rejected with the
/// one status that is bound to the sender, whatever else the transaction
/// holds.
pub proof fn lemma_reserved_sender_is_rejected(txn: SignedTransaction)
    requires
        txn.signature_valid,
        is_reserved(txn.sender@),
    ensures
        ({
            let status = mock_outcome(txn.signature_valid, txn.sender@).status;
            let sender = txn.sender@;
            &&& status is Some
            &&& sender == ACCOUNT_DNE_TEST_ADD@ <==> status == Some(
                StatusCode::SENDING_ACCOUNT_DOES_NOT_EXIST,
            )
            &&& sender == INVALID_SIG_TEST_ADD@ <==> status == Some(StatusCode::INVALID_SIGNATURE)
            &&& sender == INSUFFICIENT_BALANCE_TEST_ADD@ <==> status == Some(
                StatusCode::INSUFFICIENT_BALANCE_FOR_TRANSACTION_FEE,
            )
            &&& sender == SEQ_NUMBER_TOO_NEW_TEST_ADD@ <==> status == Some(
                StatusCode::SEQUENCE_NUMBER_TOO_NEW,
            )
            &&& sender == SEQ_NUMBER_TOO_OLD_TEST_ADD@ <==> status == Some(
                StatusCode::SEQUENCE_NUMBER_TOO_OLD,
            )
            &&& sender == TXN_EXPIRATION_TIME_TEST_ADD@ <==> status == Some(
                StatusCode::TRANSACTION_EXPIRED,
            )
            &&& sender == INVALID_AUTH_KEY_TEST_ADD@ <==> status == Some(
                StatusCode::INVALID_AUTH_KEY,
            )
        }),
{
}

/// Two correctly signed transactions of one sender get the same verdict. The
/// payload, the sequence number and the expiration do not count.
pub proof fn lemma_verdict_depends_on_sender_alone(first: SignedTransaction, second: SignedTransaction)
    requires
        first.signature_valid,
        second.signature_valid,
        first.sender@ == second.sender@,
    ensures
        mock_outcome(first.signature_valid, first.sender@) == mock_outcome(
            second.signature_valid,
            second.sender@,
        ),
{
}

/// A transaction whose signature check fails is rejected for its signature,
/// whoever the sender is.
pub proof fn lemma_invalid_signature_is_rejected(txn: SignedTransaction)
    requires
        !txn.signature_valid,
    ensures
        mock_outcome(txn.signature_valid, txn.sender@).status == Some(
            StatusCode::INVALID_SIGNATURE,
        ),
{
}

} // verus!
