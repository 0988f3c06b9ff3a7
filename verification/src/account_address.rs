//! Account addresses and the reserved senders of the mock validator.

use vstd::prelude::*;

verus! {

/// A fixed-width account address.
#[derive(Clone, Copy, Debug, Eq)]
pub struct AccountAddress {
    bytes: [u8; 32],
}

/// Sender that the mock validator rejects as an account that does not exist.
pub const ACCOUNT_DNE_TEST_ADD: [u8; 32] = [
    0, 0, 0, 0, 0, 0, 0, 0, 0, 0, 0, 0, 0, 0, 0, 0,
    0, 0, 0, 0, 0, 0, 0, 0, 0, 0, 0, 0, 0, 0, 0, 0,
];

/// Sender that the mock validator rejects for an invalid signature.
pub const INVALID_SIG_TEST_ADD: [u8; 32] = [
    1, 1, 1, 1, 1, 1, 1, 1, 1, 1, 1, 1, 1, 1, 1, 1,
    1, 1, 1, 1, 1, 1, 1, 1, 1, 1, 1, 1, 1, 1, 1, 1,
];

/// Sender that the mock validator rejects for an insufficient balance.
pub const INSUFFICIENT_BALANCE_TEST_ADD: [u8; 32] = [
    2, 2, 2, 2, 2, 2, 2, 2, 2, 2, 2, 2, 2, 2, 2, 2,
    2, 2, 2, 2, 2, 2, 2, 2, 2, 2, 2, 2, 2, 2, 2, 2,
];

/// Sender that the mock validator rejects for a sequence number that is too new.
pub const SEQ_NUMBER_TOO_NEW_TEST_ADD: [u8; 32] = [
    3, 3, 3, 3, 3, 3, 3, 3, 3, 3, 3, 3, 3, 3, 3, 3,
    3, 3, 3, 3, 3, 3, 3, 3, 3, 3, 3, 3, 3, 3, 3, 3,
];

/// Sender that the mock validator rejects for a sequence number that is too old.
pub const SEQ_NUMBER_TOO_OLD_TEST_ADD: [u8; 32] = [
    4, 4, 4, 4, 4, 4, 4, 4, 4, 4, 4, 4, 4, 4, 4, 4,
    4, 4, 4, 4, 4, 4, 4, 4, 4, 4, 4, 4, 4, 4, 4, 4,
];

/// Sender that the mock validator rejects as expired.
pub const TXN_EXPIRATION_TIME_TEST_ADD: [u8; 32] = [
    5, 5, 5, 5, 5, 5, 5, 5, 5, 5, 5, 5, 5, 5, 5, 5,
    5, 5, 5, 5, 5, 5, 5, 5, 5, 5, 5, 5, 5, 5, 5, 5,
];

/// Sender that the mock validator rejects for an invalid authentication key.
pub const INVALID_AUTH_KEY_TEST_ADD: [u8; 32] = [
    6, 6, 6, 6, 6, 6, 6, 6, 6, 6, 6, 6, 6, 6, 6, 6,
    6, 6, 6, 6, 6, 6, 6, 6, 6, 6, 6, 6, 6, 6, 6, 6,
];

/// The address whose every byte is `byte`.
pub open spec fn filled(byte: u8) -> Seq<u8> {
    Seq::new(32, |i: int| byte)
}

impl View for AccountAddress {
    type V = Seq<u8>;

    /// The address as its sequence of bytes.
    closed spec fn view(&self) -> Seq<u8> {
        self.bytes@
    }
}

impl AccountAddress {
    /// Number of bytes in an address.
    pub const LENGTH: usize = 32;

    /// The address made of `bytes`.
    pub fn new(bytes: [u8; 32]) -> (address: Self)
        ensures
            address@ == bytes@,
    {
        AccountAddress { bytes }
    }

    /// The bytes of the address.
    pub fn into_bytes(self) -> (bytes: [u8; 32])
        ensures
            bytes@ == self@,
    {
        self.bytes
    }
}

impl PartialEq for AccountAddress {
    /// Compares the two addresses byte by byte.
    fn eq(&self, other: &Self) -> (equal: bool) {
        let mut i: usize = 0;
        while i < 32
            invariant
                i <= 32,
                forall|j: int| 0 <= j < i ==> self.bytes[j] == other.bytes[j],
            decreases 32 - i,
        {
            if self.bytes[i] != other.bytes[i] {
                assert(self@[i as int] != other@[i as int]);
                return false;
            }
            i += 1;
        }
        assert(self@ =~= other@);
        true
    }
}

impl vstd::std_specs::cmp::PartialEqSpecImpl for AccountAddress {
    open spec fn obeys_eq_spec() -> bool {
        true
    }

    open spec fn eq_spec(&self, other: &Self) -> bool {
        self@ == other@
    }
}

/// Each reserved sender repeats one byte, from `0x00` for the first to `0x06`
/// for the last.
pub proof fn lemma_reserved_addresses_are_filled()
    ensures
        ACCOUNT_DNE_TEST_ADD@ == filled(0),
        INVALID_SIG_TEST_ADD@ == filled(1),
        INSUFFICIENT_BALANCE_TEST_ADD@ == filled(2),
        SEQ_NUMBER_TOO_NEW_TEST_ADD@ == filled(3),
        SEQ_NUMBER_TOO_OLD_TEST_ADD@ == filled(4),
        TXN_EXPIRATION_TIME_TEST_ADD@ == filled(5),
        INVALID_AUTH_KEY_TEST_ADD@ == filled(6),
{
    assert(ACCOUNT_DNE_TEST_ADD@ =~= filled(0));
    assert(INVALID_SIG_TEST_ADD@ =~= filled(1));
    assert(INSUFFICIENT_BALANCE_TEST_ADD@ =~= filled(2));
    assert(SEQ_NUMBER_TOO_NEW_TEST_ADD@ =~= filled(3));
    assert(SEQ_NUMBER_TOO_OLD_TEST_ADD@ =~= filled(4));
    assert(TXN_EXPIRATION_TIME_TEST_ADD@ =~= filled(5));
    assert(INVALID_AUTH_KEY_TEST_ADD@ =~= filled(6));
}

} // verus!
