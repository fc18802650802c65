//! State sync: once per sprint-start block, read the state receiver's cursor,
//! fetch the newer events and replay each, in ascending id order, as a
//! privileged transaction. The decisions are made here; the caller runs the
//! calls, the fetch and the transactions, and reports each outcome.

use vstd::prelude::*;
use crate::config::{BorConfig, calculate_state_delay, fork_active, state_delay_at};
use crate::error::HeimdallError;
use crate::event::{EventRecordWithTime, rlp_event_record, sort_by_id, sorted_by_id};
use crate::genesis_contract_client::{
    GenesisContractClient,
    commit_state_calldata,
    is_u64_return,
    last_state_id_selector,
};
use crate::primitives::{Address, U256, be_value};
use crate::span::Span;

verus! {

broadcast use vstd::multiset::group_multiset_axioms, vstd::seq_lib::group_to_multiset_ensures;

/// Gas limit of system transactions: high enough that relaying never runs out.
pub const SYSTEM_GAS_LIMIT: u64 = 0x7fff_ffff_ffff_ffff;

/// The type byte of a legacy transaction.
pub const LEGACY_TX_TYPE: u8 = 0;

/// A read-only call from the system address.
#[derive(Clone, Debug, PartialEq, Eq)]
pub struct SystemCall {
    pub caller: Address,
    pub target: Address,
    pub data: Vec<u8>,
}

/// A privileged transaction from the system address: free, with nonce zero.
#[derive(Clone, Debug, PartialEq, Eq)]
pub struct SystemTx {
    pub tx_type: u8,
    pub caller: Address,
    pub gas_limit: u64,
    pub gas_price: u128,
    pub to: Address,
    pub value: U256,
    pub data: Vec<u8>,
    pub nonce: u64,
    pub chain_id: Option<u64>,
}

/// A legacy transaction message addressed to a system contract.
#[derive(Clone, Debug, PartialEq, Eq)]
pub struct LegacyTx {
    pub chain_id: Option<u64>,
    pub nonce: u64,
    pub to: Address,
    pub value: U256,
    pub gas_limit: u64,
    pub gas_price: u128,
    pub input: Vec<u8>,
}

/// What the executor reports for a system call or transaction.
#[derive(Clone, Debug, PartialEq, Eq)]
pub enum CallOutcome {
    /// It executed successfully and returned these bytes.
    Success(Vec<u8>),
    /// It executed and reverted or halted.
    Unsuccessful,
    /// The executor refused to run it.
    Rejected,
}

/// A message addressed to `to_address` from the system: no chain id, nonce
/// zero, no value, the system gas limit and no gas price.
pub fn get_system_msg(to_address: Address, data: Vec<u8>) -> (r: LegacyTx)
    ensures
        r == (LegacyTx {
            chain_id: None,
            nonce: 0,
            to: to_address,
            value: U256 { limbs: [0, 0, 0, 0] },
            gas_limit: SYSTEM_GAS_LIMIT,
            gas_price: 0,
            input: data,
        }),
{
    LegacyTx {
        chain_id: None,
        nonce: 0,
        to: to_address,
        value: U256 { limbs: [0, 0, 0, 0] },
        gas_limit: SYSTEM_GAS_LIMIT,
        gas_price: 0,
        input: data,
    }
}

/// The cursor that a read of `lastStateId()` yields, if its outcome decodes.
pub open spec fn decoded_cursor(outcome: CallOutcome) -> Option<u64> {
    match outcome {
        CallOutcome::Success(out) => if is_u64_return(out@) {
            Some(be_value(out@.subrange(0, 32)) as u64)
        } else {
            None
        },
        _ => None,
    }
}

/// The latest checkpoint time of the events relayed in a block: the block's
/// timestamp less the confirmation delay once the Indore fork is active (zero
/// if the delay exceeds it), the timestamp itself before.
pub open spec fn to_time_at(config: &BorConfig, block_number: u64, timestamp: u64) -> u64 {
    if fork_active(config.indore_block, block_number) {
        let delay = state_delay_at(config, block_number);
        if timestamp >= delay {
            (timestamp - delay) as u64
        } else {
            0
        }
    } else {
        timestamp
    }
}

/// The transaction that commits state-sync calldata `data`.
pub open spec fn state_sync_tx(
    contracts: GenesisContractClient,
    chain_id: u64,
    data: Seq<u8>,
    tx: SystemTx,
) -> bool {
    &&& tx.tx_type == LEGACY_TX_TYPE
    &&& tx.caller == contracts.spec_system_address()
    &&& tx.gas_limit == SYSTEM_GAS_LIMIT
    &&& tx.gas_price == 0
    &&& tx.to == contracts.spec_state_receiver_contract()
    &&& tx.value == U256 { limbs: [0, 0, 0, 0] }
    &&& tx.data@ == data
    &&& tx.nonce == 0
    &&& tx.chain_id == Some(chain_id)
}

/// The transaction that relays `event`.
pub open spec fn commits_event(
    contracts: GenesisContractClient,
    chain_id: u64,
    event: EventRecordWithTime,
    tx: SystemTx,
) -> bool {
    event.time >= 0 && state_sync_tx(
        contracts,
        chain_id,
        commit_state_calldata(event.time as nat, rlp_event_record(event.event_record)),
        tx,
    )
}

/// Where a block's state sync stands.
#[derive(Clone, Copy, Debug, PartialEq, Eq)]
pub enum SyncPhase {
    /// Not begun.
    Idle,
    /// Waiting for the cursor read.
    ReadingCursor,
    /// Waiting for the events.
    Fetching,
    /// Waiting for the commit of the event at the current index.
    Relaying,
    /// Every event relayed.
    Done,
    /// Failed: the block must be rejected.
    Failed,
}

/// What the executor of a block's state sync does next.
#[derive(Debug)]
pub enum SyncAction {
    /// Run this read-only call and report its outcome.
    ReadCursor(SystemCall),
    /// Fetch the events with ids from `from_id`, observed no later than `to_time`.
    FetchEvents { from_id: u64, to_time: u64 },
    /// Execute and commit this transaction and report its outcome.
    Commit(SystemTx),
    /// State sync is complete for the block.
    Done,
    /// State sync failed; the block's changes must be discarded.
    Failed(HeimdallError),
}

/// What the executor of a block's state sync reports.
#[derive(Debug)]
pub enum SyncEvent {
    /// Begin.
    Start,
    /// The outcome of the cursor read.
    CursorRead(CallOutcome),
    /// The fetched events, or why the fetch failed.
    EventsFetched(Result<Vec<EventRecordWithTime>, HeimdallError>),
    /// The outcome of the last commit.
    Committed(CallOutcome),
}

/// Whether `event` is what `phase` waits for.
pub open spec fn awaits(phase: SyncPhase, event: SyncEvent) -> bool {
    match phase {
        SyncPhase::Idle => event is Start,
        SyncPhase::ReadingCursor => event is CursorRead,
        SyncPhase::Fetching => event is EventsFetched,
        SyncPhase::Relaying => event is Committed,
        _ => false,
    }
}

/// The state sync of one block.
#[derive(Debug)]
pub struct StateSync {
    phase: SyncPhase,
    block_number: u64,
    block_timestamp: u64,
    events: Vec<EventRecordWithTime>,
    next: usize,
}

impl StateSync {
    pub closed spec fn spec_phase(&self) -> SyncPhase {
        self.phase
    }

    pub closed spec fn spec_block_number(&self) -> u64 {
        self.block_number
    }

    pub closed spec fn spec_block_timestamp(&self) -> u64 {
        self.block_timestamp
    }

    /// The events to relay, in the order of relay.
    pub closed spec fn spec_events(&self) -> Seq<EventRecordWithTime> {
        self.events@
    }

    /// How many events have been committed.
    pub closed spec fn spec_committed(&self) -> nat {
        self.next as nat
    }

    pub closed spec fn wf(&self) -> bool {
        &&& self.phase is Relaying ==> self.next < self.events@.len()
        &&& self.next <= self.events@.len()
    }

    /// The state sync of the block with this number and timestamp, not begun.
    pub fn new(block_number: u64, block_timestamp: u64) -> (r: Self)
        ensures
            r.spec_phase() == SyncPhase::Idle,
            r.spec_block_number() == block_number,
            r.spec_block_timestamp() == block_timestamp,
            r.spec_events().len() == 0,
            r.spec_committed() == 0,
            r.wf(),
    {
        StateSync { phase: SyncPhase::Idle, block_number, block_timestamp, events: Vec::new(), next: 0 }
    }

    pub fn phase(&self) -> (r: SyncPhase)
        ensures
            r == self.spec_phase(),
    {
        self.phase
    }
}

/// Issues the system calls and transactions of state sync and span commits.
#[derive(Debug)]
pub struct SystemCaller {
    pub chain_id: u64,
    pub bor_config: BorConfig,
    pub genesis_contract_client: GenesisContractClient,
}

impl SystemCaller {
    pub fn new(chain_id: u64, bor_config: BorConfig, genesis_contract_client: GenesisContractClient) -> (r:
        Self)
        ensures
            r.chain_id == chain_id,
            r.bor_config == bor_config,
            r.genesis_contract_client == genesis_contract_client,
    {
        SystemCaller { chain_id, bor_config, genesis_contract_client }
    }

    /// The read-only call of `lastStateId()` on the state receiver, from the
    /// system address.
    pub fn last_state_id_call(&self) -> (r: SystemCall)
        ensures
            r.caller == self.genesis_contract_client.spec_system_address(),
            r.target == self.genesis_contract_client.spec_state_receiver_contract(),
            r.data@ == last_state_id_selector(),
    {
        let data = self.genesis_contract_client.last_state_id().unwrap();
        SystemCall {
            caller: self.genesis_contract_client.get_system_address(),
            target: self.genesis_contract_client.get_state_receiver_contract_address(),
            data,
        }
    }

    /// The id of the last event relayed, from the outcome of the cursor read:
    /// a call that did not succeed is an EVM error, and return data that does
    /// not decode is a decode error.
    pub fn last_state_sync_event_id(&self, outcome: &CallOutcome) -> (r: Result<u64, HeimdallError>)
        ensures
            r is Ok <==> decoded_cursor(*outcome) is Some,
            r matches Ok(v) ==> decoded_cursor(*outcome) == Some(v),
            !(outcome is Success) ==> r == Err::<u64, _>(HeimdallError::EVMError),
            outcome is Success && r is Err ==> r->Err_0 is SolDecodeError,
    {
        match outcome {
            CallOutcome::Success(output) => self.genesis_contract_client.decode_last_state_id(
                output.as_slice(),
            ),
            _ => Err(HeimdallError::EVMError),
        }
    }

    /// The latest checkpoint time of the events to relay in a block.
    pub fn state_sync_to_time(&self, block_number: u64, timestamp: u64) -> (r: u64)
        ensures
            r == to_time_at(&self.bor_config, block_number, timestamp),
    {
        if self.bor_config.is_indore_fork_enabled(block_number) {
            let delay = calculate_state_delay(&self.bor_config, block_number);
            timestamp.saturating_sub(delay)
        } else {
            timestamp
        }
    }

    /// The transaction that commits state-sync calldata `input` to the state receiver.
    pub fn get_state_sync_tx(&self, input: Vec<u8>) -> (r: SystemTx)
        ensures
            state_sync_tx(self.genesis_contract_client, self.chain_id, input@, r),
    {
        SystemTx {
            tx_type: LEGACY_TX_TYPE,
            caller: self.genesis_contract_client.get_system_address(),
            gas_limit: SYSTEM_GAS_LIMIT,
            gas_price: 0,
            to: self.genesis_contract_client.get_state_receiver_contract_address(),
            value: U256 { limbs: [0, 0, 0, 0] },
            data: input,
            nonce: 0,
            chain_id: Some(self.chain_id),
        }
    }

    /// The commit of the event at index `sync.next`, or the failure to encode it.
    fn commit_next(&self, sync: &mut StateSync) -> (r: SyncAction)
        requires
            old(sync).next < old(sync).events@.len(),
            old(sync).wf(),
        ensures
            final(sync).events == old(sync).events,
            final(sync).next == old(sync).next,
            final(sync).block_number == old(sync).block_number,
            final(sync).block_timestamp == old(sync).block_timestamp,
            final(sync).wf(),
            old(sync).events@[old(sync).next as int].time >= 0 ==> (r matches SyncAction::Commit(tx)
                && commits_event(
                self.genesis_contract_client,
                self.chain_id,
                old(sync).events@[old(sync).next as int],
                tx,
            ) && final(sync).phase == SyncPhase::Relaying),
            old(sync).events@[old(sync).next as int].time < 0 ==> (r matches SyncAction::Failed(e)
                && e == HeimdallError::SystemTimeError && final(sync).phase == SyncPhase::Failed),
    {
        match self.genesis_contract_client.encode_state_sync_data_ref(&sync.events[sync.next]) {
            Ok(data) => {
                sync.phase = SyncPhase::Relaying;
                SyncAction::Commit(self.get_state_sync_tx(data))
            },
            Err(e) => {
                sync.phase = SyncPhase::Failed;
                SyncAction::Failed(e)
            },
        }
    }
    /// Advances a block's state sync by what its executor reports, and says
    /// what to do next. Begun, it reads the cursor; with the cursor, it asks
    /// for the events above it; with the events, it commits them one by one in
    /// ascending id order. Any failure ends it as failed: no later event is
    /// committed, and the block must be rejected.
    pub fn apply_state_sync_contract_call(&self, sync: &mut StateSync, event: SyncEvent) -> (r:
        SyncAction)
        requires
            old(sync).wf(),
            awaits(old(sync).spec_phase(), event),
        ensures
            final(sync).wf(),
            final(sync).spec_block_number() == old(sync).spec_block_number(),
            final(sync).spec_block_timestamp() == old(sync).spec_block_timestamp(),
            !(event is EventsFetched) ==> final(sync).spec_events() == old(sync).spec_events(),
            r is Failed <==> final(sync).spec_phase() == SyncPhase::Failed,
            r is Done <==> final(sync).spec_phase() == SyncPhase::Done,
            match event {
                SyncEvent::Start => r matches SyncAction::ReadCursor(call) && call.caller
                    == self.genesis_contract_client.spec_system_address() && call.target
                    == self.genesis_contract_client.spec_state_receiver_contract() && call.data@
                    == last_state_id_selector() && final(sync).spec_phase()
                    == SyncPhase::ReadingCursor,
                SyncEvent::CursorRead(outcome) => match decoded_cursor(outcome) {
                    None => r matches SyncAction::Failed(e) && (!(outcome is Success) ==> e
                        == HeimdallError::EVMError) && (outcome is Success ==> e is SolDecodeError),
                    Some(cursor) => if cursor == u64::MAX {
                        r is Done
                    } else {
                        r == (SyncAction::FetchEvents {
                            from_id: (cursor + 1) as u64,
                            to_time: to_time_at(
                                &self.bor_config,
                                old(sync).spec_block_number(),
                                old(sync).spec_block_timestamp(),
                            ),
                        }) && final(sync).spec_phase() == SyncPhase::Fetching
                    },
                },
                SyncEvent::EventsFetched(fetched) => match fetched {
                    Err(e) => r matches SyncAction::Failed(f) && f == e,
                    Ok(events) => if events@.len() == 0 {
                        r is Done
                    } else {
                        let first = final(sync).spec_events()[0];
                        &&& sorted_by_id(final(sync).spec_events())
                        &&& final(sync).spec_events().to_multiset() == events@.to_multiset()
                        &&& final(sync).spec_committed() == 0
                        &&& first.time >= 0 ==> (r matches SyncAction::Commit(tx) && commits_event(
                            self.genesis_contract_client,
                            self.chain_id,
                            first,
                            tx,
                        ))
                        &&& first.time < 0 ==> (r matches SyncAction::Failed(e) && e
                            == HeimdallError::SystemTimeError)
                    },
                },
                SyncEvent::Committed(outcome) => match outcome {
                    CallOutcome::Success(_) => {
                        let n = old(sync).spec_committed() + 1;
                        let events = old(sync).spec_events();
                        &&& final(sync).spec_committed() == n
                        &&& n == events.len() ==> r is Done
                        &&& n < events.len() && events[n as int].time >= 0 ==> (r matches SyncAction::Commit(
                            tx,
                        ) && commits_event(
                            self.genesis_contract_client,
                            self.chain_id,
                            events[n as int],
                            tx,
                        ))
                        &&& n < events.len() && events[n as int].time < 0 ==> (r matches SyncAction::Failed(
                            e,
                        ) && e == HeimdallError::SystemTimeError)
                    },
                    CallOutcome::Unsuccessful => r matches SyncAction::Failed(e) && e
                        == HeimdallError::EVMError && final(sync).spec_committed()
                        == old(sync).spec_committed(),
                    CallOutcome::Rejected => r matches SyncAction::Failed(e) && e
                        == HeimdallError::InvalidStateSyncData && final(sync).spec_committed()
                        == old(sync).spec_committed(),
                },
            },
    {
        match event {
            SyncEvent::Start => {
                sync.phase = SyncPhase::ReadingCursor;
                SyncAction::ReadCursor(self.last_state_id_call())
            },
            SyncEvent::CursorRead(outcome) => match self.last_state_sync_event_id(&outcome) {
                Err(e) => {
                    sync.phase = SyncPhase::Failed;
                    SyncAction::Failed(e)
                },
                Ok(cursor) => {
                    if cursor == u64::MAX {
                        sync.phase = SyncPhase::Done;
                        SyncAction::Done
                    } else {
                        sync.phase = SyncPhase::Fetching;
                        SyncAction::FetchEvents {
                            from_id: cursor + 1,
                            to_time: self.state_sync_to_time(sync.block_number, sync.block_timestamp),
                        }
                    }
                },
            },
            SyncEvent::EventsFetched(fetched) => match fetched {
                Err(e) => {
                    sync.phase = SyncPhase::Failed;
                    SyncAction::Failed(e)
                },
                Ok(events) => {
                    if events.len() == 0 {
                        sync.phase = SyncPhase::Done;
                        SyncAction::Done
                    } else {
                        let ghost fetched_view = events@;
                        sync.events = sort_by_id(events);
                        sync.next = 0;
                        proof {
                            vstd::seq_lib::to_multiset_len(sync.events@);
                            vstd::seq_lib::to_multiset_len(fetched_view);
                        }
                        self.commit_next(sync)
                    }
                },
            },
            SyncEvent::Committed(outcome) => match outcome {
                CallOutcome::Success(_) => {
                    let count = sync.events.len();
                    sync.next = sync.next + 1;
                    if sync.next == count {
                        sync.phase = SyncPhase::Done;
                        SyncAction::Done
                    } else {
                        self.commit_next(sync)
                    }
                },
                CallOutcome::Unsuccessful => {
                    sync.phase = SyncPhase::Failed;
                    SyncAction::Failed(HeimdallError::EVMError)
                },
                CallOutcome::Rejected => {
                    sync.phase = SyncPhase::Failed;
                    SyncAction::Failed(HeimdallError::InvalidStateSyncData)
                },
            },
        }
    }
    /// Commits the next span when the block calls for it. Unsupported: always fails.
    pub fn check_and_apply_commit_span(&self, block_number: u64) -> (r: Result<(), HeimdallError>)
        ensures
            r == Err::<(), _>(HeimdallError::Unsupported),
    {
        Err(HeimdallError::Unsupported)
    }

    /// Commits the next span. Unsupported: always fails.
    pub fn apply_commit_span(&self, block_number: u64) -> (r: Result<(), HeimdallError>)
        ensures
            r == Err::<(), _>(HeimdallError::Unsupported),
    {
        Err(HeimdallError::Unsupported)
    }

    /// The span the validator-set contract holds. Unsupported: always fails.
    pub fn get_current_span(&self) -> (r: Result<Span, HeimdallError>)
        ensures
            r == Err::<Span, _>(HeimdallError::Unsupported),
    {
        Err(HeimdallError::Unsupported)
    }

    /// The current validators, by block hash. Unsupported: always fails.
    pub fn get_current_validators_by_hash(&self) -> (r: Result<u64, HeimdallError>)
        ensures
            r == Err::<u64, _>(HeimdallError::Unsupported),
    {
        Err(HeimdallError::Unsupported)
    }

    /// The current validators, by block number or hash. Unsupported: always fails.
    pub fn get_current_validators_by_block_nr_or_hash(&self) -> (r: Result<u64, HeimdallError>)
        ensures
            r == Err::<u64, _>(HeimdallError::Unsupported),
    {
        Err(HeimdallError::Unsupported)
    }

    /// The span-commit call. Unsupported: always fails.
    pub fn commit_span(&self) -> (r: Result<(), HeimdallError>)
        ensures
            r == Err::<(), _>(HeimdallError::Unsupported),
    {
        Err(HeimdallError::Unsupported)
    }
}

/// Reading the cursor is repeatable: the read is the same call each time
/// (`last_state_id_call` fixes it from the contract addresses), and when the
/// executor returns the same bytes, as it does while no relay is committed in
/// between, the same cursor is decoded, or the same failure comes.
pub proof fn lemma_cursor_read_repeatable(first: CallOutcome, second: CallOutcome)
    requires
        first is Success <==> second is Success,
        first matches CallOutcome::Success(a) ==> second matches CallOutcome::Success(b) && a@ == b@,
    ensures
        decoded_cursor(first) == decoded_cursor(second),
{
}

/// A failed state sync is over: it awaits no further report, so after a
/// commit fails no later event is committed, and the block is rejected.
pub proof fn lemma_failed_sync_is_final(sync: StateSync, event: SyncEvent)
    requires
        sync.spec_phase() == SyncPhase::Failed,
    ensures
        !awaits(sync.spec_phase(), event),
{
}

} // verus!
