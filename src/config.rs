//! The chain's consensus configuration: schedules keyed by activation block,
//! system contract addresses and named fork activations.

use vstd::prelude::*;
use crate::primitives::Address;
use crate::schedule::{Schedule, value_at};

verus! {

/// Whether a fork whose activation block is `activation` is active at `block`.
pub open spec fn fork_active(activation: Option<u64>, block: u64) -> bool {
    activation matches Some(a) && a <= block
}

/// Configuration of the Proof-of-Authority consensus engine.
#[derive(Debug)]
pub struct BorConfig {
    /// Seconds between blocks.
    pub period: Schedule<u64>,
    /// Seconds between two producer intervals.
    pub producer_delay: Schedule<u64>,
    /// Sprint length in blocks.
    pub sprint: Schedule<u64>,
    /// Multiplier that sets the backup producer's wait.
    pub backup_multiplier: Schedule<u64>,
    /// The validator-set contract.
    pub validator_contract: Address,
    /// The state-receiver contract.
    pub state_receiver_contract: Address,
    /// Overrides of the number of state-sync records per block.
    pub override_state_sync_records: Schedule<i32>,
    /// Contract that receives burnt fees.
    pub burnt_contract: Schedule<Address>,
    /// Activation block of the Jaipur fork, if scheduled.
    pub jaipur_block: Option<u64>,
    /// Activation block of the Delhi fork, if scheduled.
    pub delhi_block: Option<u64>,
    /// Activation block of the Indore fork, if scheduled.
    pub indore_block: Option<u64>,
    /// Seconds that a state-sync event must have been confirmed before it is relayed.
    pub state_sync_confirmation_delay: Schedule<u64>,
    /// Activation block of the Ahmedabad fork, if scheduled.
    pub ahmedabad_block: Option<u64>,
}

impl BorConfig {
    /// The sprint length in effect at `block`.
    pub open spec fn sprint_at(&self, block: u64) -> Option<u64> {
        value_at(self.sprint@, block)
    }

    /// Whether the configuration has a nonzero sprint length in effect at `block`.
    pub open spec fn has_sprint_at(&self, block: u64) -> bool {
        self.sprint_at(block) matches Some(len) && len > 0
    }

    /// Whether `block` is the first block of a sprint.
    pub open spec fn spec_is_sprint_start(&self, block: u64) -> bool {
        block % self.sprint_at(block)->0 == 0
    }

    /// The sprint length in effect at `block`, or an error when no entry of the
    /// sprint table applies.
    pub fn sprint_number(&self, block_number: u64) -> (r: Result<u64, String>)
        ensures
            r matches Ok(len) ==> self.sprint_at(block_number) == Some(len),
            r is Err <==> self.sprint_at(block_number) is None,
    {
        match self.sprint.lookup(block_number) {
            Some(len) => Ok(len),
            None => Err(String::from_str("Sprint not found for block")),
        }
    }

    /// Whether `block_number` starts a sprint. The sprint table must give a
    /// nonzero length at that block: a chain without one is misconfigured.
    pub fn is_sprint_start(&self, block_number: u64) -> (r: bool)
        requires
            self.has_sprint_at(block_number),
        ensures
            r == self.spec_is_sprint_start(block_number),
    {
        let len = self.sprint.lookup(block_number).unwrap();
        block_number % len == 0
    }

    pub fn is_indore_fork_enabled(&self, block_number: u64) -> (r: bool)
        ensures
            r == fork_active(self.indore_block, block_number),
    {
        matches!(self.indore_block, Some(a) if a <= block_number)
    }

    pub fn is_ahmedabad_fork_enabled(&self, block_number: u64) -> (r: bool)
        ensures
            r == fork_active(self.ahmedabad_block, block_number),
    {
        matches!(self.ahmedabad_block, Some(a) if a <= block_number)
    }

    pub fn is_delhi_fork_enabled(&self, block_number: u64) -> (r: bool)
        ensures
            r == fork_active(self.delhi_block, block_number),
    {
        matches!(self.delhi_block, Some(a) if a <= block_number)
    }

    pub fn is_jaipur_fork_enabled(&self, block_number: u64) -> (r: bool)
        ensures
            r == fork_active(self.jaipur_block, block_number),
    {
        matches!(self.jaipur_block, Some(a) if a <= block_number)
    }

    pub fn validator_contract(&self) -> (r: Address)
        ensures
            r == self.validator_contract,
    {
        self.validator_contract
    }

    pub fn state_receiver_contract(&self) -> (r: Address)
        ensures
            r == self.state_receiver_contract,
    {
        self.state_receiver_contract
    }

    /// The burnt-fee contract in effect at `block_number`.
    pub fn burnt_contract(&self, block_number: u64) -> (r: Result<Address, String>)
        ensures
            r matches Ok(a) ==> value_at(self.burnt_contract@, block_number) == Some(a),
            r is Err <==> value_at(self.burnt_contract@, block_number) is None,
    {
        match self.burnt_contract.lookup(block_number) {
            Some(a) => Ok(a),
            None => Err(String::from_str("Burnt contract not found for block")),
        }
    }
}

/// The confirmation delay, in seconds, in effect at `block`; zero where the
/// table has no entry at or below it.
pub open spec fn state_delay_at(config: &BorConfig, block: u64) -> u64 {
    match value_at(config.state_sync_confirmation_delay@, block) {
        Some(d) => d,
        None => 0,
    }
}

/// The confirmation delay that state-sync events must have aged by at `block_number`.
pub fn calculate_state_delay(config: &BorConfig, block_number: u64) -> (r: u64)
    ensures
        r == state_delay_at(config, block_number),
{
    match config.state_sync_confirmation_delay.lookup(block_number) {
        Some(d) => d,
        None => 0,
    }
}

} // verus!
