//! The capability contract of validation and the validator over a cached
//! snapshot.

use std::sync::Arc;
use vstd::prelude::*;
use crate::account_address::AccountAddress;
use crate::account_config::{AccountResource, AccountSequenceInfo, CRSNResource};
use crate::error::{Error, FailPoint, StorageError};
use crate::failpoint::eval;
use crate::on_chain_config::OnChainConfigPayload;
use crate::state_view::{AccountView, DbReader};
use crate::transaction::{SignedTransaction, VMValidatorResult};

verus! {

/// The validation entrypoint of the execution engine, over snapshots of type
/// `S`.
pub trait ValidationEngine<S>: Sized {
    /// An instance bound to `state_view`.
    fn new_for_validation(state_view: &S) -> Self;

    /// The verdict on `transaction` against `state_view`.
    fn validate(&self, transaction: SignedTransaction, state_view: &S) -> VMValidatorResult;
}

/// What the mempool asks of a validator.
///
/// Validations share the validator and may run side by side. A restart or a
/// commit notification takes the validator exclusively, so no validation ever
/// sees a snapshot that is half replaced.
pub trait TransactionValidation: Send + Sync {
    /// The snapshots that the validation instance reads.
    type StateView;

    /// The engine instance that evaluates the transactions.
    type ValidationInstance: ValidationEngine<Self::StateView>;

    /// Validates a transaction from a client.
    ///
    /// `Ok` carries the verdict, which admits or rejects the transaction. An
    /// error says that the transaction was not evaluated.
    fn validate_transaction(&self, txn: SignedTransaction) -> Result<VMValidatorResult, Error>;

    /// Restarts the validation instance after a reconfiguration.
    fn restart(&mut self, config: OnChainConfigPayload) -> Result<(), Error>;

    /// Tells the validator that a new version was committed.
    ///
    /// An error says that the latest snapshot could not be had. It is no
    /// verdict on any transaction.
    fn notify_commit(&mut self) -> Result<(), Error>;
}

/// The sequencing that the window resource gives, if the account has one that
/// can be read.
pub open spec fn crsn_sequence_info(crsn: Result<Option<CRSNResource>, StorageError>) -> Option<
    AccountSequenceInfo,
> {
    match crsn {
        Ok(Some(resource)) => Some(
            AccountSequenceInfo::NonContiguous {
                min_nonce: resource.min_nonce,
                size: resource.size,
            },
        ),
        _ => None,
    }
}

/// The sequencing that the classic account resource gives. An account without
/// the resource is a fresh account at sequence number 0.
pub open spec fn account_sequence_info(
    account: Result<Option<AccountResource>, StorageError>,
) -> Result<AccountSequenceInfo, Error> {
    match account {
        Ok(Some(resource)) => Ok(AccountSequenceInfo::Sequential(resource.sequence_number)),
        Ok(None) => Ok(AccountSequenceInfo::Sequential(0)),
        Err(cause) => Err(Error::StateRead(cause)),
    }
}

/// The sequencing of an account whose two resources read as `crsn` and
/// `account`: the window resource takes precedence.
pub open spec fn sequence_info(
    crsn: Result<Option<CRSNResource>, StorageError>,
    account: Result<Option<AccountResource>, StorageError>,
) -> Result<AccountSequenceInfo, Error> {
    match crsn_sequence_info(crsn) {
        Some(info) => Ok(info),
        None => account_sequence_info(account),
    }
}

/// True if `resolved` is what the resources of `address` in `state_view` give:
/// the window resource was read, and the account resource if the window
/// resource gave nothing.
pub open spec fn resolves_to<S: AccountView>(
    state_view: &S,
    address: AccountAddress,
    resolved: Result<AccountSequenceInfo, Error>,
) -> bool {
    exists|crsn: Result<Option<CRSNResource>, StorageError>|
        {
            &&& #[trigger] call_ensures(S::get_crsn_resource, (state_view, &address), crsn)
            &&& match crsn_sequence_info(crsn) {
                Some(info) => resolved == Ok::<AccountSequenceInfo, Error>(info),
                None => exists|account: Result<Option<AccountResource>, StorageError>|
                    {
                        &&& #[trigger] call_ensures(
                            S::get_account_resource,
                            (state_view, &address),
                            account,
                        )
                        &&& resolved == account_sequence_info(account)
                    },
            }
        }
}

/// Whatever the two resources of `address` read as, their
/// [`sequence_info`] is a result of the resolution: a window resource that
/// can be read wins over the account resource, an account without either is a
/// fresh account, and only a failed read of the account resource is an error.
pub proof fn lemma_reads_resolve_to_sequence_info<S: AccountView>(
    state_view: &S,
    address: AccountAddress,
    crsn: Result<Option<CRSNResource>, StorageError>,
    account: Result<Option<AccountResource>, StorageError>,
)
    requires
        call_ensures(S::get_crsn_resource, (state_view, &address), crsn),
        call_ensures(S::get_account_resource, (state_view, &address), account),
    ensures
        resolves_to(state_view, address, sequence_info(crsn, account)),
{
}

/// The sequencing that a read of the window resource gives.
pub fn sequence_info_of_crsn(crsn: Result<Option<CRSNResource>, StorageError>) -> (info: Option<
    AccountSequenceInfo,
>)
    ensures
        info == crsn_sequence_info(crsn),
{
    match crsn {
        Ok(Some(resource)) => Some(
            AccountSequenceInfo::NonContiguous {
                min_nonce: resource.min_nonce(),
                size: resource.size(),
            },
        ),
        _ => None,
    }
}

/// The sequencing that a read of the classic account resource gives.
pub fn sequence_info_of_account(account: Result<Option<AccountResource>, StorageError>) -> (info:
    Result<AccountSequenceInfo, Error>)
    ensures
        info == account_sequence_info(account),
{
    match account {
        Ok(Some(resource)) => Ok(AccountSequenceInfo::Sequential(resource.sequence_number())),
        Ok(None) => Ok(AccountSequenceInfo::Sequential(0)),
        Err(cause) => Err(Error::StateRead(cause)),
    }
}

/// Resolves the sequencing of `address`, unless a fault is injected.
///
/// With `injected` the function fails at once and reads nothing. Otherwise it
/// reads the window resource and, if that gives nothing, the account resource.
pub fn account_sequence_number_unless_injected<S: AccountView>(
    injected: bool,
    state_view: &S,
    address: AccountAddress,
) -> (resolved: Result<AccountSequenceInfo, Error>)
    ensures
        injected ==> resolved == Err::<AccountSequenceInfo, Error>(
            Error::Injected(FailPoint::GetAccountSequenceNumber),
        ),
        !injected ==> resolves_to(state_view, address, resolved),
{
    if injected {
        return Err(Error::Injected(FailPoint::GetAccountSequenceNumber));
    }
    let crsn = state_view.get_crsn_resource(&address);
    if let Some(info) = sequence_info_of_crsn(crsn) {
        return Ok(info);
    }
    let account = state_view.get_account_resource(&address);
    sequence_info_of_account(account)
}

/// Returns the sequencing of an account from storage.
///
/// The fail point [`FailPoint::GetAccountSequenceNumber`] guards the call:
/// when it fires, the function returns its error and reads nothing.
pub fn get_account_sequence_number<S: AccountView>(state_view: &S, address: AccountAddress) -> (resolved:
    Result<AccountSequenceInfo, Error>)
    ensures
        resolved == Err::<AccountSequenceInfo, Error>(
            Error::Injected(FailPoint::GetAccountSequenceNumber),
        ) || resolves_to(state_view, address, resolved),
{
    let injected = eval(FailPoint::GetAccountSequenceNumber.name());
    account_sequence_number_unless_injected(injected, state_view, address)
}

/// The validator of the node: it evaluates transactions with the execution
/// engine against a cached snapshot of the ledger.
///
/// The snapshot is fetched when the validator is made and again on every
/// [`notify_commit`](TransactionValidation::notify_commit) and
/// [`restart`](TransactionValidation::restart). Between two refreshes it does
/// not change.
pub struct VMValidator<R: DbReader, V: ValidationEngine<R::StateView>> {
    db_reader: Arc<R>,
    state_view: R::StateView,
    vm: V,
}

/// `Arc::clone`: another handle to the value that `handle` points to.
#[verifier::external_body]
fn share<R>(handle: &Arc<R>) -> (shared: Arc<R>)
    ensures
        shared == *handle,
{
    Arc::clone(handle)
}

impl<R: DbReader, V: ValidationEngine<R::StateView>> VMValidator<R, V> {
    /// The provider that the validator fetches its snapshots from.
    pub closed spec fn db_reader(&self) -> R {
        *self.db_reader
    }

    /// The cached snapshot.
    pub closed spec fn state_view(&self) -> R::StateView {
        self.state_view
    }

    /// The engine instance that evaluates the transactions.
    pub closed spec fn vm(&self) -> V {
        self.vm
    }

    /// True if `fetched` is an answer that `db_reader` gives when asked for
    /// its latest snapshot.
    pub open spec fn provides(db_reader: R, fetched: Result<R::StateView, StorageError>) -> bool {
        call_ensures(R::latest_state_checkpoint_view, (&db_reader,), fetched)
    }

    /// True if `vm` is an instance that the engine binds to `state_view`.
    pub open spec fn binds(state_view: R::StateView, vm: V) -> bool {
        call_ensures(V::new_for_validation, (&state_view,), vm)
    }

    /// True if `outcome` is a verdict of the bound engine on `txn` against the
    /// cached snapshot.
    pub open spec fn evaluates(&self, txn: SignedTransaction, outcome: VMValidatorResult) -> bool {
        call_ensures(V::validate, (&self.vm(), txn, &self.state_view()), outcome)
    }

    /// True if the validator is `before` with the cached snapshot replaced by
    /// `latest`: same provider, same engine instance.
    pub open spec fn refreshed_from(&self, before: &Self, latest: R::StateView) -> bool {
        &&& self.db_reader() == before.db_reader()
        &&& self.state_view() == latest
        &&& self.vm() == before.vm()
    }

    /// True if the validator is `before` with the cached snapshot replaced by
    /// `latest` and the engine bound anew to `latest`.
    pub open spec fn restarted_from(&self, before: &Self, latest: R::StateView) -> bool {
        &&& self.db_reader() == before.db_reader()
        &&& self.state_view() == latest
        &&& Self::binds(latest, self.vm())
    }

    /// Makes the validator from the answer of the provider to the first fetch.
    ///
    /// With a snapshot the validator caches it and binds an engine instance to
    /// it. Without one there is no validator: the error is
    /// [`Error::SnapshotUnavailable`] with the cause.
    pub fn from_checkpoint(db_reader: Arc<R>, fetched: Result<R::StateView, StorageError>) -> (made:
        Result<Self, Error>)
        ensures
            match fetched {
                Ok(latest) => (made matches Ok(validator) && {
                    &&& validator.db_reader() == *db_reader
                    &&& validator.state_view() == latest
                    &&& Self::binds(latest, validator.vm())
                }),
                Err(cause) => (made matches Err(error) && error == Error::SnapshotUnavailable(
                    cause,
                )),
            },
    {
        match fetched {
            Ok(state_view) => {
                let vm = V::new_for_validation(&state_view);
                Ok(VMValidator { db_reader, state_view, vm })
            },
            Err(cause) => Err(Error::SnapshotUnavailable(cause)),
        }
    }

    /// Makes a validator over the latest snapshot of `db_reader`.
    ///
    /// It fails only if the fetch fails, with [`Error::SnapshotUnavailable`].
    /// The node treats that as fatal.
    pub fn new(db_reader: Arc<R>) -> (made: Result<Self, Error>)
        ensures
            match made {
                Ok(validator) => {
                    &&& validator.db_reader() == *db_reader
                    &&& Self::provides(*db_reader, Ok(validator.state_view()))
                    &&& Self::binds(validator.state_view(), validator.vm())
                },
                Err(Error::SnapshotUnavailable(cause)) => Self::provides(*db_reader, Err(cause)),
                Err(_) => false,
            },
    {
        let fetched = db_reader.latest_state_checkpoint_view();
        Self::from_checkpoint(db_reader, fetched)
    }

    /// Makes a fresh validator from the same provider. The new validator
    /// fetches its own snapshot: the two share no cached state.
    pub fn try_clone(&self) -> (made: Result<Self, Error>)
        ensures
            match made {
                Ok(validator) => {
                    &&& validator.db_reader() == self.db_reader()
                    &&& Self::provides(self.db_reader(), Ok(validator.state_view()))
                    &&& Self::binds(validator.state_view(), validator.vm())
                },
                Err(Error::SnapshotUnavailable(cause)) => Self::provides(self.db_reader(), Err(cause)),
                Err(_) => false,
            },
    {
        Self::new(share(&self.db_reader))
    }

    /// True if `validated` is what a validation of `txn` returns when the fail
    /// point answered `injected`: the injected error if it fired, and a verdict
    /// of the bound engine against the cached snapshot if it did not.
    pub open spec fn validates_to(
        &self,
        injected: bool,
        txn: SignedTransaction,
        validated: Result<VMValidatorResult, Error>,
    ) -> bool {
        if injected {
            validated == Err::<VMValidatorResult, Error>(
                Error::Injected(FailPoint::ValidateTransaction),
            )
        } else {
            validated matches Ok(outcome) && self.evaluates(txn, outcome)
        }
    }

    /// Validates `txn`, unless a fault is injected.
    ///
    /// With `injected` the function fails at once. Otherwise the bound engine
    /// evaluates `txn` against the cached snapshot, and nothing is fetched.
    pub fn validate_unless_injected(&self, injected: bool, txn: SignedTransaction) -> (validated:
        Result<VMValidatorResult, Error>)
        ensures
            self.validates_to(injected, txn, validated),
    {
        if injected {
            return Err(Error::Injected(FailPoint::ValidateTransaction));
        }
        Ok(self.vm.validate(txn, &self.state_view))
    }

    /// Replaces the cached snapshot by the answer of the provider.
    ///
    /// With a snapshot it becomes the cached one and the old one is dropped.
    /// Without one nothing changes and the error is
    /// [`Error::SnapshotUnavailable`] with the cause.
    pub fn install_checkpoint(&mut self, fetched: Result<R::StateView, StorageError>) -> (installed:
        Result<(), Error>)
        ensures
            match fetched {
                Ok(latest) => installed is Ok && final(self).refreshed_from(old(self), latest),
                Err(cause) => {
                    &&& installed == Err::<(), Error>(Error::SnapshotUnavailable(cause))
                    &&& *final(self) == *old(self)
                },
            },
    {
        match fetched {
            Ok(state_view) => {
                self.state_view = state_view;
                Ok(())
            },
            Err(cause) => Err(Error::SnapshotUnavailable(cause)),
        }
    }

    /// Restarts on the answer of the provider.
    ///
    /// With a snapshot it becomes the cached one and a fresh engine instance is
    /// bound to it, whether or not anything differs from what was cached.
    /// Without one nothing changes and the error is
    /// [`Error::SnapshotUnavailable`] with the cause.
    pub fn restart_on_checkpoint(&mut self, fetched: Result<R::StateView, StorageError>) -> (restarted:
        Result<(), Error>)
        ensures
            match fetched {
                Ok(latest) => restarted is Ok && final(self).restarted_from(old(self), latest),
                Err(cause) => {
                    &&& restarted == Err::<(), Error>(Error::SnapshotUnavailable(cause))
                    &&& *final(self) == *old(self)
                },
            },
    {
        match self.install_checkpoint(fetched) {
            Ok(()) => {
                self.vm = V::new_for_validation(&self.state_view);
                Ok(())
            },
            Err(error) => Err(error),
        }
    }

    /// After a commit notification that installed `latest`, a verdict of the
    /// validator is a verdict of its engine against `latest`, not against the
    /// snapshot that was cached before.
    pub proof fn lemma_validation_observes_committed_snapshot(
        before: Self,
        after: Self,
        latest: R::StateView,
        txn: SignedTransaction,
        outcome: VMValidatorResult,
    )
        requires
            after.refreshed_from(&before, latest),
            after.evaluates(txn, outcome),
        ensures
            call_ensures(V::validate, (&before.vm(), txn, &latest), outcome),
    {
    }

    /// A fault fails the validation on which the fail point fires, and no
    /// other. Where the point fires on the first of a run of validations and
    /// on none after it, the first returns the injected error and each later
    /// one returns a verdict of the engine.
    pub proof fn lemma_fault_fails_only_its_validation(
        validator: Self,
        fired: Seq<bool>,
        txns: Seq<SignedTransaction>,
        results: Seq<Result<VMValidatorResult, Error>>,
    )
        requires
            0 < fired.len(),
            fired.len() == txns.len(),
            fired.len() == results.len(),
            fired[0],
            forall|i: int| 0 < i < fired.len() ==> !fired[i],
            forall|i: int|
                0 <= i < fired.len() ==> #[trigger] validator.validates_to(
                    fired[i],
                    txns[i],
                    results[i],
                ),
        ensures
            results[0] == Err::<VMValidatorResult, Error>(
                Error::Injected(FailPoint::ValidateTransaction),
            ),
            forall|i: int|
                0 < i < results.len() ==> (#[trigger] results[i] matches Ok(outcome)
                    && validator.evaluates(txns[i], outcome)),
    {
        assert(validator.validates_to(fired[0], txns[0], results[0]));
        assert forall|i: int| 0 < i < results.len() implies (#[trigger] results[i] matches Ok(
            outcome,
        ) && validator.evaluates(txns[i], outcome)) by {
            assert(validator.validates_to(fired[i], txns[i], results[i]));
        }
    }

    /// A restart always installs the snapshot that was fetched for it and binds
    /// the engine to it, also where the fetched snapshot equals the cached one:
    /// every later verdict is one of an engine instance bound to `latest`,
    /// against `latest`.
    pub proof fn lemma_restart_refreshes(
        before: Self,
        after: Self,
        latest: R::StateView,
        txn: SignedTransaction,
        outcome: VMValidatorResult,
    )
        requires
            after.restarted_from(&before, latest),
            after.evaluates(txn, outcome),
        ensures
            after.db_reader() == before.db_reader(),
            after.state_view() == latest,
            Self::binds(latest, after.vm()),
            call_ensures(V::validate, (&after.vm(), txn, &latest), outcome),
    {
    }
}

impl<R, V> TransactionValidation for VMValidator<R, V> where
    R: DbReader + Send + Sync,
    R::StateView: Send + Sync,
    V: ValidationEngine<R::StateView> + Send + Sync,
 {
    type StateView = R::StateView;

    type ValidationInstance = V;

    /// Validates `txn` with the bound engine against the cached snapshot.
    ///
    /// The fail point [`FailPoint::ValidateTransaction`] guards the call: when
    /// it fires, the error is returned and the engine is not asked. No other
    /// error occurs.
    fn validate_transaction(&self, txn: SignedTransaction) -> (validated: Result<
        VMValidatorResult,
        Error,
    >)
        ensures
            self.validates_to(validated is Err, txn, validated),
    {
        let injected = eval(FailPoint::ValidateTransaction.name());
        self.validate_unless_injected(injected, txn)
    }

    /// Fetches the latest snapshot and binds a fresh engine instance to it.
    /// The payload is not read.
    fn restart(&mut self, _config: OnChainConfigPayload) -> (restarted: Result<(), Error>)
        ensures
            match restarted {
                Ok(()) => {
                    &&& Self::provides(old(self).db_reader(), Ok(final(self).state_view()))
                    &&& final(self).restarted_from(old(self), final(self).state_view())
                },
                Err(Error::SnapshotUnavailable(cause)) => {
                    &&& Self::provides(old(self).db_reader(), Err(cause))
                    &&& *final(self) == *old(self)
                },
                Err(_) => false,
            },
    {
        let fetched = self.db_reader.latest_state_checkpoint_view();
        self.restart_on_checkpoint(fetched)
    }

    /// Fetches the latest snapshot and caches it in place of the old one.
    fn notify_commit(&mut self) -> (notified: Result<(), Error>)
        ensures
            match notified {
                Ok(()) => {
                    &&& Self::provides(old(self).db_reader(), Ok(final(self).state_view()))
                    &&& final(self).refreshed_from(old(self), final(self).state_view())
                },
                Err(Error::SnapshotUnavailable(cause)) => {
                    &&& Self::provides(old(self).db_reader(), Err(cause))
                    &&& *final(self) == *old(self)
                },
                Err(_) => false,
            },
    {
        let fetched = self.db_reader.latest_state_checkpoint_view();
        self.install_checkpoint(fetched)
    }
}

} // verus!
