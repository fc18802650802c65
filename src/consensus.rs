//! Block validation for the Proof-of-Authority chain: header rules checked
//! before execution, the body against its header, a header against its
//! parent, and the gas that execution reports against the header.

use vstd::prelude::*;
use crate::config::BorConfig;
use crate::primitives::{B256, U256, bytes_equal};

verus! {

/// Bytes of free-form data at the start of a header's extra data.
pub const EXTRA_VANITY_LENGTH: usize = 32;

/// Bytes of the producer's signature at the end of a header's extra data.
pub const EXTRA_SEAL_LENGTH: usize = 65;

/// Bytes per validator in the validator section of a header's extra data.
pub const VALIDATOR_HEADER_BYTES_LENGTH: usize = 40;

/// Largest gas limit a header may declare.
pub const MAX_GAS_LIMIT: u64 = 0x7fff_ffff_ffff_ffff;

/// keccak256 of the RLP encoding of an empty list: the ommers hash of a block
/// without ommers.
pub open spec fn empty_ommer_root() -> Seq<u8> {
    seq![
        0x1du8, 0xcc, 0x4d, 0xe8, 0xde, 0xc7, 0x5d, 0x7a, 0xab, 0x85, 0xb5, 0x67, 0xb6, 0xcc, 0xd4,
        0x1a, 0xd3, 0x12, 0x45, 0x1b, 0x94, 0x8a, 0x74, 0x13, 0xf0, 0xa1, 0x42, 0xfd, 0x40, 0xd4,
        0x93, 0x47,
    ]
}

/// The ommers hash of a block without ommers.
pub fn empty_ommer_root_hash() -> (r: B256)
    ensures
        r.0@ == empty_ommer_root(),
{
    let r = B256(
        [
            0x1d, 0xcc, 0x4d, 0xe8, 0xde, 0xc7, 0x5d, 0x7a, 0xab, 0x85, 0xb5, 0x67, 0xb6, 0xcc,
            0xd4, 0x1a, 0xd3, 0x12, 0x45, 0x1b, 0x94, 0x8a, 0x74, 0x13, 0xf0, 0xa1, 0x42, 0xfd,
            0x40, 0xd4, 0x93, 0x47,
        ],
    );
    assert(r.0@ =~= empty_ommer_root());
    r
}

/// The fields of a block header that the consensus rules read.
#[derive(Clone, Debug)]
pub struct Header {
    pub number: u64,
    pub timestamp: u64,
    /// Vanity, then the validator section, then the producer's seal.
    pub extra_data: Vec<u8>,
    pub mix_hash: Option<B256>,
    pub ommers_hash: B256,
    pub difficulty: U256,
    pub gas_limit: u64,
    pub gas_used: u64,
    pub withdrawals_root: Option<B256>,
    pub transactions_root: B256,
}

/// A block body: its transactions, each in its EIP-2718 encoding, and its ommers.
#[derive(Clone, Debug)]
pub struct BlockBody {
    pub transactions: Vec<Vec<u8>>,
    pub ommers: Vec<Header>,
}

/// What a receipt records that validation reads.
#[derive(Clone, Copy, Debug)]
pub struct Receipt {
    pub success: bool,
    pub cumulative_gas_used: u64,
}

/// Why a block is rejected.
#[derive(Clone, Debug)]
#[allow(inconsistent_fields)]
pub enum ConsensusError {
    /// The header's timestamp is later than the current time.
    FutureBlock,
    /// The extra data is shorter than the vanity.
    MissingVanity,
    /// The extra data has no room for the seal after the vanity.
    MissingSignature,
    /// Validator bytes on a block that does not end a sprint.
    ExtraValidators,
    /// Validator bytes at a sprint end that are not whole validator records.
    InvalidSpanValidators,
    /// The header carries a mix hash.
    NonZeroMixDigest,
    /// The ommers hash is not that of an empty list.
    InvalidUncleHash,
    /// A block other than genesis has zero difficulty.
    InvalidDifficulty,
    /// The gas limit is above the allowed maximum.
    InvalidGasLimit { have: u64, max: u64 },
    /// The header carries a withdrawals root.
    UnexpectedWithdrawals,
    /// The body carries ommers.
    OmmersNotAllowed,
    /// The body's transactions do not hash to the header's transactions root.
    BodyTransactionRootDiff { got: B256, expected: B256 },
    /// The header's number does not follow its parent's.
    ParentBlockNumberMismatch { parent_block_number: u64, block_number: u64 },
    /// The gas used by execution differs from the header's.
    BlockGasUsed { got: u64, expected: u64, gas_spent_by_tx: Vec<(u64, u64)> },
}

/// The number of validator bytes in extra data of the given length.
pub open spec fn validator_bytes_len(extra_len: nat) -> int {
    extra_len - EXTRA_VANITY_LENGTH - EXTRA_SEAL_LENGTH
}

/// The verdict of the checks before execution that do not read the clock, in
/// the order in which they apply.
pub open spec fn header_verdict(config: &BorConfig, header: &Header) -> Result<(), ConsensusError> {
    let extra_len = header.extra_data@.len();
    let sprint_end = config.spec_is_sprint_start((header.number + 1) as u64);
    if extra_len < EXTRA_VANITY_LENGTH {
        Err(ConsensusError::MissingVanity)
    } else if extra_len < EXTRA_VANITY_LENGTH + EXTRA_SEAL_LENGTH {
        Err(ConsensusError::MissingSignature)
    } else if !sprint_end && validator_bytes_len(extra_len) != 0 {
        Err(ConsensusError::ExtraValidators)
    } else if sprint_end && validator_bytes_len(extra_len) % (VALIDATOR_HEADER_BYTES_LENGTH as int)
        != 0 {
        Err(ConsensusError::InvalidSpanValidators)
    } else if header.mix_hash is Some {
        Err(ConsensusError::NonZeroMixDigest)
    } else if header.ommers_hash.0@ != empty_ommer_root() {
        Err(ConsensusError::InvalidUncleHash)
    } else if header.number > 0 && header.difficulty.spec_is_zero() {
        Err(ConsensusError::InvalidDifficulty)
    } else if header.gas_limit > MAX_GAS_LIMIT {
        Err(ConsensusError::InvalidGasLimit { have: header.gas_limit, max: MAX_GAS_LIMIT })
    } else if header.withdrawals_root is Some {
        Err(ConsensusError::UnexpectedWithdrawals)
    } else {
        Ok(())
    }
}

/// The verdict of all checks before execution when the clock reads `now`
/// seconds since the UNIX epoch.
pub open spec fn pre_execution_verdict(config: &BorConfig, header: &Header, now: u64) -> Result<
    (),
    ConsensusError,
> {
    if header.timestamp > now {
        Err(ConsensusError::FutureBlock)
    } else {
        header_verdict(config, header)
    }
}

/// What the configuration must give to validate `header`: the block after it
/// exists and has a nonzero sprint length in effect.
pub open spec fn can_validate(config: &BorConfig, header: &Header) -> bool {
    header.number < u64::MAX && config.has_sprint_at((header.number + 1) as u64)
}

/// The cumulative gas that the last receipt reports, zero for none.
pub open spec fn reported_gas(receipts: Seq<Receipt>) -> u64 {
    if receipts.len() == 0 {
        0
    } else {
        receipts.last().cumulative_gas_used
    }
}

/// Each receipt's index paired with its cumulative gas.
pub open spec fn gas_by_index(receipts: Seq<Receipt>) -> Seq<(u64, u64)> {
    Seq::new(receipts.len(), |i: int| (i as u64, receipts[i].cumulative_gas_used))
}

/// The root of the trie that maps each index to the item at that index: the
/// transactions root of a block whose transactions these encodings are.
pub uninterp spec fn ordered_trie_root_of(items: Seq<Seq<u8>>) -> Seq<u8>;

/// The root of an empty trie.
pub open spec fn empty_trie_root() -> Seq<u8> {
    seq![
        0x56u8, 0xe8, 0x1f, 0x17, 0x1b, 0xcc, 0x55, 0xa6, 0xff, 0x83, 0x45, 0xe6, 0x92, 0xc0, 0xf8,
        0x6e, 0x5b, 0x48, 0xe0, 0x1b, 0x99, 0x6c, 0xad, 0xc0, 0x01, 0x62, 0x2f, 0xb5, 0xe3, 0x63,
        0xb4, 0x21,
    ]
}

/// The views of a body's encoded transactions.
pub open spec fn encoded_transactions(body: &BlockBody) -> Seq<Seq<u8>> {
    body.transactions@.map_values(|t: Vec<u8>| t@)
}

/// Relies on alloy_consensus::proofs::ordered_trie_root_encoded: the ordered
/// trie root of pre-encoded items, the empty-trie root for none.
#[verifier::external_body]
fn ordered_trie_root(items: &Vec<Vec<u8>>) -> (r: B256)
    ensures
        r.0@ == ordered_trie_root_of(items@.map_values(|t: Vec<u8>| t@)),
        items@.len() == 0 ==> r.0@ == empty_trie_root(),
{
    B256(alloy_consensus::proofs::ordered_trie_root_encoded(items.as_slice()).0)
}

#[verifier::external_type_specification]
#[verifier::external_body]
pub struct ExSystemTime(std::time::SystemTime);

/// Relies on std::time::SystemTime::now: the current time of the system clock.
#[verifier::external_body]
fn system_time_now() -> (r: std::time::SystemTime) {
    std::time::SystemTime::now()
}

/// Relies on std::time::SystemTime::duration_since with the UNIX epoch: whole
/// seconds since the epoch, `None` for a time before it.
#[verifier::external_body]
fn unix_seconds(t: std::time::SystemTime) -> (r: Option<u64>) {
    t.duration_since(std::time::UNIX_EPOCH).ok().map(|d| d.as_secs())
}

/// Pairs each receipt's index with its cumulative gas.
pub fn gas_spent_by_transactions(receipts: &Vec<Receipt>) -> (r: Vec<(u64, u64)>)
    ensures
        r@ == gas_by_index(receipts@),
{
    let mut r: Vec<(u64, u64)> = Vec::new();
    let mut i: usize = 0;
    while i < receipts.len()
        invariant
            i <= receipts@.len(),
            r@ =~= gas_by_index(receipts@.subrange(0, i as int)),
        decreases receipts@.len() - i,
    {
        r.push((i as u64, receipts[i].cumulative_gas_used));
        i = i + 1;
        assert(r@ =~= gas_by_index(receipts@.subrange(0, i as int)));
    }
    assert(receipts@.subrange(0, i as int) =~= receipts@);
    r
}

/// The consensus engine: validates blocks against the chain's configuration.
#[derive(Debug)]
pub struct BorConsensus {
    pub bor_config: BorConfig,
}

impl BorConsensus {
    pub fn new(bor_config: BorConfig) -> (r: Self)
        ensures
            r.bor_config == bor_config,
    {
        BorConsensus { bor_config }
    }

    /// Checks that extra data holds a vanity and, after it, a seal.
    pub fn validate_header_extra_field(&self, extra_bytes: &[u8]) -> (r: Result<(), ConsensusError>)
        ensures
            extra_bytes@.len() < EXTRA_VANITY_LENGTH ==> r == Err::<(), _>(
                ConsensusError::MissingVanity,
            ),
            EXTRA_VANITY_LENGTH <= extra_bytes@.len() < EXTRA_VANITY_LENGTH + EXTRA_SEAL_LENGTH
                ==> r == Err::<(), _>(ConsensusError::MissingSignature),
            extra_bytes@.len() >= EXTRA_VANITY_LENGTH + EXTRA_SEAL_LENGTH ==> r is Ok,
    {
        if extra_bytes.len() < EXTRA_VANITY_LENGTH {
            return Err(ConsensusError::MissingVanity);
        }
        if extra_bytes.len() < EXTRA_VANITY_LENGTH + EXTRA_SEAL_LENGTH {
            return Err(ConsensusError::MissingSignature);
        }
        Ok(())
    }

    /// The validator section of a header's extra data: what lies between the
    /// vanity and the seal.
    pub fn get_validator_bytes<'a>(&self, header: &'a Header) -> (r: &'a [u8])
        requires
            header.extra_data@.len() >= EXTRA_VANITY_LENGTH + EXTRA_SEAL_LENGTH,
        ensures
            r@ == header.extra_data@.subrange(
                EXTRA_VANITY_LENGTH as int,
                header.extra_data@.len() - EXTRA_SEAL_LENGTH,
            ),
    {
        let extra = header.extra_data.as_slice();
        let end = extra.len() - EXTRA_SEAL_LENGTH;
        &extra[EXTRA_VANITY_LENGTH..end]
    }

    /// The checks before execution, with the clock reading `now` seconds since
    /// the UNIX epoch.
    pub fn validate_block_pre_execution_at(&self, header: &Header, now: u64) -> (r: Result<
        (),
        ConsensusError,
    >)
        requires
            can_validate(&self.bor_config, header),
        ensures
            r == pre_execution_verdict(&self.bor_config, header, now),
    {
        if header.timestamp > now {
            return Err(ConsensusError::FutureBlock);
        }
        if let Err(err) = self.validate_header_extra_field(header.extra_data.as_slice()) {
            return Err(err);
        }
        let is_sprint_end = self.bor_config.is_sprint_start(header.number + 1);
        let signers_bytes = self.get_validator_bytes(header).len();
        if !is_sprint_end && signers_bytes != 0 {
            return Err(ConsensusError::ExtraValidators);
        }
        if is_sprint_end && signers_bytes % VALIDATOR_HEADER_BYTES_LENGTH != 0 {
            return Err(ConsensusError::InvalidSpanValidators);
        }
        if header.mix_hash.is_some() {
            return Err(ConsensusError::NonZeroMixDigest);
        }
        let empty = empty_ommer_root_hash();
        if !bytes_equal(header.ommers_hash.0.as_slice(), empty.0.as_slice()) {
            return Err(ConsensusError::InvalidUncleHash);
        }
        if header.number > 0 && header.difficulty.is_zero() {
            return Err(ConsensusError::InvalidDifficulty);
        }
        if header.gas_limit > MAX_GAS_LIMIT {
            return Err(ConsensusError::InvalidGasLimit { have: header.gas_limit, max: MAX_GAS_LIMIT });
        }
        if header.withdrawals_root.is_some() {
            return Err(ConsensusError::UnexpectedWithdrawals);
        }
        Ok(())
    }

    /// The checks before execution, against the current time. A clock that
    /// reads before the UNIX epoch places every header in the future.
    pub fn validate_block_pre_execution(&self, header: &Header) -> (r: Result<(), ConsensusError>)
        requires
            can_validate(&self.bor_config, header),
        ensures
            r == Err::<(), _>(ConsensusError::FutureBlock) || r == header_verdict(
                &self.bor_config,
                header,
            ),
    {
        match unix_seconds(system_time_now()) {
            Some(now) => self.validate_block_pre_execution_at(header, now),
            None => Err(ConsensusError::FutureBlock),
        }
    }

    /// Checks a body against its header, given the root that the body's
    /// transactions hash to.
    pub fn validate_body_with_root(&self, body: &BlockBody, header: &Header, tx_root: &B256) -> (r:
        Result<(), ConsensusError>)
        ensures
            body.ommers@.len() > 0 ==> r == Err::<(), _>(ConsensusError::OmmersNotAllowed),
            body.ommers@.len() == 0 && tx_root.0@ != header.transactions_root.0@ ==> r == Err::<
                (),
                _,
            >(
                (ConsensusError::BodyTransactionRootDiff {
                    got: *tx_root,
                    expected: header.transactions_root,
                }),
            ),
            body.ommers@.len() == 0 && tx_root.0@ == header.transactions_root.0@ ==> r is Ok,
    {
        if body.ommers.len() > 0 {
            return Err(ConsensusError::OmmersNotAllowed);
        }
        if !bytes_equal(header.transactions_root.0.as_slice(), tx_root.0.as_slice()) {
            return Err(
                ConsensusError::BodyTransactionRootDiff {
                    got: *tx_root,
                    expected: header.transactions_root,
                },
            );
        }
        Ok(())
    }

    /// Checks a body against its header: no ommers, and the transactions hash
    /// to the header's transactions root.
    pub fn validate_body_against_header(&self, body: &BlockBody, header: &Header) -> (r: Result<
        (),
        ConsensusError,
    >)
        ensures
            body.ommers@.len() > 0 ==> r == Err::<(), _>(ConsensusError::OmmersNotAllowed),
            body.ommers@.len() == 0 ==> (r is Ok <==> header.transactions_root.0@
                == ordered_trie_root_of(encoded_transactions(body))),
            body.ommers@.len() == 0 && r is Err ==> (r matches Err(
                ConsensusError::BodyTransactionRootDiff { got, expected },
            ) && got.0@ == ordered_trie_root_of(encoded_transactions(body)) && expected
                == header.transactions_root),
            body.ommers@.len() == 0 && body.transactions@.len() == 0 ==> (r is Ok
                <==> header.transactions_root.0@ == empty_trie_root()),
    {
        let tx_root = ordered_trie_root(&body.transactions);
        self.validate_body_with_root(body, header, &tx_root)
    }

    /// Checks that the header's number follows its parent's.
    pub fn validate_header_against_parent(&self, header: &Header, parent: &Header) -> (r: Result<
        (),
        ConsensusError,
    >)
        ensures
            parent.number + 1 == header.number ==> r is Ok,
            parent.number + 1 != header.number ==> r == Err::<(), _>(
                (ConsensusError::ParentBlockNumberMismatch {
                    parent_block_number: parent.number,
                    block_number: header.number,
                }),
            ),
    {
        if parent.number == u64::MAX || parent.number + 1 != header.number {
            return Err(
                ConsensusError::ParentBlockNumberMismatch {
                    parent_block_number: parent.number,
                    block_number: header.number,
                },
            );
        }
        Ok(())
    }

    /// Checks the gas that execution reports, the last receipt's cumulative gas
    /// (zero without receipts), against the header's gas used.
    pub fn validate_block_post_execution(&self, header: &Header, receipts: &Vec<Receipt>) -> (r:
        Result<(), ConsensusError>)
        ensures
            reported_gas(receipts@) == header.gas_used ==> r is Ok,
            reported_gas(receipts@) != header.gas_used ==> (r matches Err(
                ConsensusError::BlockGasUsed { got, expected, gas_spent_by_tx },
            ) && got == reported_gas(receipts@) && expected == header.gas_used
                && gas_spent_by_tx@ == gas_by_index(receipts@)),
    {
        let cumulative_gas_used = if receipts.len() == 0 {
            0
        } else {
            receipts[receipts.len() - 1].cumulative_gas_used
        };
        if header.gas_used != cumulative_gas_used {
            return Err(
                ConsensusError::BlockGasUsed {
                    got: cumulative_gas_used,
                    expected: header.gas_used,
                    gas_spent_by_tx: gas_spent_by_transactions(receipts),
                },
            );
        }
        Ok(())
    }
}

} // verus!
