use vm_validator::account_address::{
    ACCOUNT_DNE_TEST_ADD, INSUFFICIENT_BALANCE_TEST_ADD, INVALID_AUTH_KEY_TEST_ADD,
    INVALID_SIG_TEST_ADD, SEQ_NUMBER_TOO_NEW_TEST_ADD, SEQ_NUMBER_TOO_OLD_TEST_ADD,
    TXN_EXPIRATION_TIME_TEST_ADD,
};
use vm_validator::{
    AccountAddress, Error, MockVMValidator, OnChainConfigPayload, SignedTransaction, StatusCode,
    TransactionValidation, VMValidatorResult, ValidationEngine,
};

fn signed(sender: [u8; 32], payload: Vec<u8>) -> SignedTransaction {
    SignedTransaction::new(AccountAddress::new(sender), 0, payload, 100, true)
}

fn badly_signed(sender: [u8; 32]) -> SignedTransaction {
    SignedTransaction::new(AccountAddress::new(sender), 0, vec![1, 2, 3], 100, false)
}

fn status_of(txn: SignedTransaction) -> Option<StatusCode> {
    let outcome = MockVMValidator.validate_transaction(txn);
    match outcome {
        Ok(result) => {
            assert_eq!(result.score(), 0);
            result.status()
        }
        Err(error) => panic!("the mock never fails, got {:?}", error),
    }
}

#[test]
fn reserved_addresses_repeat_one_byte() {
    assert_eq!(ACCOUNT_DNE_TEST_ADD, [0u8; AccountAddress::LENGTH]);
    assert_eq!(INVALID_SIG_TEST_ADD, [1u8; AccountAddress::LENGTH]);
    assert_eq!(INSUFFICIENT_BALANCE_TEST_ADD, [2u8; AccountAddress::LENGTH]);
    assert_eq!(SEQ_NUMBER_TOO_NEW_TEST_ADD, [3u8; AccountAddress::LENGTH]);
    assert_eq!(SEQ_NUMBER_TOO_OLD_TEST_ADD, [4u8; AccountAddress::LENGTH]);
    assert_eq!(TXN_EXPIRATION_TIME_TEST_ADD, [5u8; AccountAddress::LENGTH]);
    assert_eq!(INVALID_AUTH_KEY_TEST_ADD, [6u8; AccountAddress::LENGTH]);
    assert_eq!(AccountAddress::LENGTH, 32);
}

#[test]
fn mock_rejects_account_that_does_not_exist() {
    assert_eq!(
        status_of(signed(ACCOUNT_DNE_TEST_ADD, vec![])),
        Some(StatusCode::SENDING_ACCOUNT_DOES_NOT_EXIST)
    );
}

#[test]
fn mock_rejects_invalid_signature_address() {
    assert_eq!(
        status_of(signed(INVALID_SIG_TEST_ADD, vec![])),
        Some(StatusCode::INVALID_SIGNATURE)
    );
}

#[test]
fn mock_rejects_insufficient_balance() {
    assert_eq!(
        status_of(signed(INSUFFICIENT_BALANCE_TEST_ADD, vec![])),
        Some(StatusCode::INSUFFICIENT_BALANCE_FOR_TRANSACTION_FEE)
    );
}

#[test]
fn mock_rejects_sequence_number_too_new() {
    assert_eq!(
        status_of(signed(SEQ_NUMBER_TOO_NEW_TEST_ADD, vec![])),
        Some(StatusCode::SEQUENCE_NUMBER_TOO_NEW)
    );
}

#[test]
fn mock_rejects_sequence_number_too_old() {
    assert_eq!(
        status_of(signed(SEQ_NUMBER_TOO_OLD_TEST_ADD, vec![])),
        Some(StatusCode::SEQUENCE_NUMBER_TOO_OLD)
    );
}

#[test]
fn mock_rejects_expired_transaction() {
    assert_eq!(
        status_of(signed(TXN_EXPIRATION_TIME_TEST_ADD, vec![])),
        Some(StatusCode::TRANSACTION_EXPIRED)
    );
}

#[test]
fn mock_rejects_invalid_auth_key() {
    assert_eq!(
        status_of(signed(INVALID_AUTH_KEY_TEST_ADD, vec![])),
        Some(StatusCode::INVALID_AUTH_KEY)
    );
}

#[test]
fn mock_admits_other_addresses() {
    assert_eq!(status_of(signed([7u8; 32], vec![])), None);
    assert_eq!(status_of(signed([0xffu8; 32], vec![9, 9])), None);
    // One byte off a reserved address is not reserved.
    let mut almost_zero = ACCOUNT_DNE_TEST_ADD;
    almost_zero[31] = 1;
    assert_eq!(status_of(signed(almost_zero, vec![])), None);
    let mut almost_six = INVALID_AUTH_KEY_TEST_ADD;
    almost_six[0] = 0;
    assert_eq!(status_of(signed(almost_six, vec![])), None);
}

#[test]
fn mock_verdict_ignores_payload_and_other_fields() {
    let first = SignedTransaction::new(
        AccountAddress::new(SEQ_NUMBER_TOO_OLD_TEST_ADD),
        1,
        vec![],
        0,
        true,
    );
    let second = SignedTransaction::new(
        AccountAddress::new(SEQ_NUMBER_TOO_OLD_TEST_ADD),
        77,
        vec![0xde, 0xad, 0xbe, 0xef],
        u64::MAX,
        true,
    );
    assert_eq!(status_of(first), Some(StatusCode::SEQUENCE_NUMBER_TOO_OLD));
    assert_eq!(status_of(second), Some(StatusCode::SEQUENCE_NUMBER_TOO_OLD));
}

#[test]
fn mock_rejects_failed_signature_check_for_every_sender() {
    assert_eq!(status_of(badly_signed([9u8; 32])), Some(StatusCode::INVALID_SIGNATURE));
    assert_eq!(
        status_of(badly_signed(ACCOUNT_DNE_TEST_ADD)),
        Some(StatusCode::INVALID_SIGNATURE)
    );
    assert_eq!(
        status_of(badly_signed(TXN_EXPIRATION_TIME_TEST_ADD)),
        Some(StatusCode::INVALID_SIGNATURE)
    );
}

#[test]
fn mock_rejection_is_a_verdict_not_an_error() {
    let outcome = MockVMValidator.validate_transaction(badly_signed([9u8; 32]));
    assert_eq!(
        outcome,
        Ok(VMValidatorResult::new(Some(StatusCode::INVALID_SIGNATURE), 0))
    );
}

#[test]
fn mock_restart_is_not_implemented() {
    let mut mock = MockVMValidator;
    let restarted = mock.restart(OnChainConfigPayload::new(3, vec![vec![1]]));
    assert_eq!(restarted, Err(Error::Unimplemented));
    assert_eq!(Error::Unimplemented.message(), "not implemented");
}

#[test]
fn mock_notify_commit_does_nothing() {
    let mut mock = MockVMValidator;
    assert_eq!(mock.notify_commit(), Ok(()));
    assert_eq!(status_of(signed([7u8; 32], vec![])), None);
}

#[test]
fn mock_engine_admits_everything() {
    let vm: MockVMValidator = ValidationEngine::<u8>::new_for_validation(&0u8);
    let outcome = vm.validate(signed(ACCOUNT_DNE_TEST_ADD, vec![]), &0u8);
    assert_eq!(outcome, VMValidatorResult::new(None, 0));
    let outcome = vm.validate(badly_signed([1u8; 32]), &"any snapshot");
    assert_eq!(outcome.status(), None);
    assert_eq!(outcome.score(), 0);
}

#[test]
fn address_equality_is_by_bytes() {
    let mut bytes = [0u8; 32];
    bytes[17] = 5;
    let a = AccountAddress::new(bytes);
    let b = AccountAddress::new(bytes);
    assert_eq!(a, b);
    assert_eq!(a.into_bytes(), bytes);
    bytes[31] = 1;
    assert_ne!(a, AccountAddress::new(bytes));
    bytes[31] = 0;
    bytes[0] = 1;
    assert_ne!(a, AccountAddress::new(bytes));
}

#[test]
fn transaction_getters_return_the_fields() {
    let txn = SignedTransaction::new(AccountAddress::new([8u8; 32]), 12, vec![1, 2], 99, true);
    assert_eq!(txn.sender(), AccountAddress::new([8u8; 32]));
    assert_eq!(txn.sequence_number(), 12);
    assert_eq!(txn.expiration_timestamp_secs(), 99);
    assert!(txn.check_signature());
    assert_eq!(txn.payload, vec![1, 2]);
    assert!(!badly_signed([8u8; 32]).check_signature());
}
