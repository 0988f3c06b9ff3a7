//! Transaction admission for a blockchain node.
//!
//! The crate decides whether a signed transaction may enter the pending queue.
//! It holds the capability contract that the mempool depends on
//! ([`TransactionValidation`]), the validator that evaluates transactions
//! against a cached ledger snapshot ([`VMValidator`]), the resolver of an
//! account's sequencing scheme ([`get_account_sequence_number`]), a
//! deterministic test double ([`MockVMValidator`]) and the named fault
//! injection points that guard the entrypoints. It also holds what the HTTP
//! API of the node decides without any I/O: its error responses and the choice
//! of its listener.
//!
//! Storage and the execution engine are capabilities that the embedding node
//! supplies through the traits [`DbReader`], [`AccountView`] and
//! [`ValidationEngine`]. No contract in this crate assumes anything of their
//! implementations: what a function obtained from one of them is stated as
//! "a value that this call can return".

pub mod account_address;
pub mod account_config;
pub mod api_listener;
pub mod api_types;
pub mod error;
pub mod failpoint;
pub mod mock_vm_validator;
pub mod on_chain_config;
pub mod state_view;
pub mod transaction;
pub mod vm_validator;

pub use account_address::AccountAddress;
pub use account_config::{AccountResource, AccountSequenceInfo, CRSNResource};
pub use api_types::{ApiError, ApiTags, AptosError, AptosErrorCode, AptosErrorResponse};
pub use error::{Error, FailPoint, StorageError};
pub use failpoint::{fail_point, fail_point_poem};
pub use mock_vm_validator::MockVMValidator;
pub use on_chain_config::OnChainConfigPayload;
pub use state_view::{AccountView, DbReader};
pub use transaction::{SignedTransaction, StatusCode, VMValidatorResult};
pub use vm_validator::{
    get_account_sequence_number, TransactionValidation, VMValidator, ValidationEngine,
};
