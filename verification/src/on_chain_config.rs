//! The payload of a reconfiguration.

use vstd::prelude::*;

verus! {

/// The on-chain configuration that a reconfiguration announces.
///
/// Validators take it as the signal to rebuild their execution binding. They
/// do not read it.
#[derive(Clone, Debug, PartialEq, Eq)]
pub struct OnChainConfigPayload {
    /// The epoch that the reconfiguration starts.
    pub epoch: u64,
    /// The serialised configurations.
    pub configs: Vec<Vec<u8>>,
}

impl OnChainConfigPayload {
    /// The payload of `epoch` with the given configurations.
    pub fn new(epoch: u64, configs: Vec<Vec<u8>>) -> (payload: Self)
        ensures
            payload.epoch == epoch,
            payload.configs == configs,
    {
        OnChainConfigPayload { epoch, configs }
    }

    /// The epoch that the reconfiguration starts.
    pub fn epoch(&self) -> (epoch: u64)
        ensures
            epoch == self.epoch,
    {
        self.epoch
    }
}

} // verus!
