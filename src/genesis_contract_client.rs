//! Calls to the chain's system contracts: the state receiver's cursor read and
//! event commit, in the contract ABI.

use vstd::prelude::*;
use crate::error::HeimdallError;
use crate::event::{EventRecordWithTime, encode_event_record, rlp_event_record};
use crate::primitives::{Address, be_fixed, be_fixed_u64, be_value};

verus! {

/// Selector of `lastStateId()`: the first four bytes of the keccak256 hash of
/// that signature.
pub open spec fn last_state_id_selector() -> Seq<u8> {
    seq![0x54u8, 0x07, 0xca, 0x67]
}

/// Selector of `commitState(uint256,bytes)`.
pub open spec fn commit_state_selector() -> Seq<u8> {
    seq![0x19u8, 0x49, 0x4a, 0x17]
}

/// A 32-byte ABI word holding `n`.
pub open spec fn abi_word(n: nat) -> Seq<u8> {
    be_fixed(n, 32)
}

/// Zero bytes that bring `len` bytes up to a whole number of words.
pub open spec fn abi_padding(len: nat) -> nat {
    ((32 - len % 32) % 32) as nat
}

/// Calldata of `commitState(syncTime, recordBytes)`: the selector, the time,
/// the offset of the bytes argument, its length, then the bytes padded with
/// zeros to whole words.
pub open spec fn commit_state_calldata(sync_time: nat, record: Seq<u8>) -> Seq<u8> {
    commit_state_selector() + abi_word(sync_time) + abi_word(64) + abi_word(record.len()) + record
        + Seq::new(abi_padding(record.len()), |i: int| 0u8)
}

/// Whether `data` holds a `uint256` return value that fits in 64 bits: a
/// first word whose 24 leading bytes are zero. Bytes after it are ignored.
pub open spec fn is_u64_return(data: Seq<u8>) -> bool {
    data.len() >= 32 && forall|i: int| 0 <= i < 24 ==> data[i] == 0
}

proof fn lemma_be_value_zeros(s: Seq<u8>)
    requires
        forall|i: int| 0 <= i < s.len() ==> s[i] == 0,
    ensures
        be_value(s) == 0,
    decreases s.len(),
{
    if s.len() > 0 {
        lemma_be_value_zeros(s.drop_last());
    }
}

/// Leading zero bytes do not change the value.
proof fn lemma_be_value_zero_prefix(s: Seq<u8>, k: int)
    requires
        0 <= k <= s.len(),
        forall|i: int| 0 <= i < k ==> s[i] == 0,
    ensures
        be_value(s) == be_value(s.subrange(k, s.len() as int)),
    decreases s.len(),
{
    if s.len() == k {
        lemma_be_value_zeros(s);
        assert(s.subrange(k, s.len() as int).len() == 0);
    } else {
        lemma_be_value_zero_prefix(s.drop_last(), k);
        assert(s.subrange(k, s.len() as int).drop_last() =~= s.drop_last().subrange(
            k,
            s.len() - 1,
        ));
    }
}

/// A big-endian string of `n` bytes denotes less than 256 to the power `n`.
proof fn lemma_be_value_bound(s: Seq<u8>)
    ensures
        be_value(s) < pow256(s.len()),
    decreases s.len(),
{
    if s.len() > 0 {
        let rest = s.drop_last();
        lemma_be_value_bound(rest);
        let b = be_value(rest);
        let p = pow256(rest.len());
        assert(b * 256 + s.last() < 256 * p) by (nonlinear_arith)
            requires
                b < p,
                s.last() < 256,
        ;
    }
}

/// A nonzero byte at index `i` contributes at least its place value.
proof fn lemma_be_value_at_least(s: Seq<u8>, i: int)
    requires
        0 <= i < s.len(),
        s[i] != 0,
    ensures
        be_value(s) >= pow256((s.len() - 1 - i) as nat),
    decreases s.len(),
{
    let rest = s.drop_last();
    if i < s.len() - 1 {
        lemma_be_value_at_least(rest, i);
        let b = be_value(rest);
        let p = pow256((rest.len() - 1 - i) as nat);
        assert(b * 256 + s.last() >= 256 * p) by (nonlinear_arith)
            requires
                b >= p,
        ;
    }
}

proof fn lemma_pow256_monotonic(a: nat, b: nat)
    requires
        a <= b,
    ensures
        pow256(a) <= pow256(b),
    decreases b,
{
    if a < b {
        lemma_pow256_monotonic(a, (b - 1) as nat);
    }
}

/// A word's value fits in 64 bits exactly when its 24 leading bytes are zero.
proof fn lemma_word_fits_u64(s: Seq<u8>)
    requires
        s.len() == 32,
    ensures
        (forall|i: int| 0 <= i < 24 ==> s[i] == 0) <==> be_value(s) <= u64::MAX,
{
    reveal_with_fuel(pow256, 9);
    assert(pow256(8) == 0x1_0000_0000_0000_0000);
    if forall|i: int| 0 <= i < 24 ==> s[i] == 0 {
        lemma_be_value_zero_prefix(s, 24);
        lemma_be_value_bound(s.subrange(24, 32));
    } else {
        let i = choose|i: int| 0 <= i < 24 && s[i] != 0;
        lemma_be_value_at_least(s, i);
        lemma_pow256_monotonic(8, (31 - i) as nat);
    }
}

/// The addresses of the system contracts and of the system caller.
#[derive(Clone, Copy, Debug, PartialEq, Eq)]
pub struct GenesisContractClient {
    validator_contract: Address,
    state_receiver_contract: Address,
    system_address: Address,
}

impl GenesisContractClient {
    pub closed spec fn spec_validator_contract(&self) -> Address {
        self.validator_contract
    }

    pub closed spec fn spec_state_receiver_contract(&self) -> Address {
        self.state_receiver_contract
    }

    pub closed spec fn spec_system_address(&self) -> Address {
        self.system_address
    }

    pub fn new(
        validator_contract: Address,
        state_receiver_contract: Address,
        system_address: Address,
    ) -> (r: Self)
        ensures
            r.spec_validator_contract() == validator_contract,
            r.spec_state_receiver_contract() == state_receiver_contract,
            r.spec_system_address() == system_address,
    {
        GenesisContractClient { validator_contract, state_receiver_contract, system_address }
    }

    pub fn get_validator_contract_address(&self) -> (r: Address)
        ensures
            r == self.spec_validator_contract(),
    {
        self.validator_contract
    }

    pub fn get_state_receiver_contract_address(&self) -> (r: Address)
        ensures
            r == self.spec_state_receiver_contract(),
    {
        self.state_receiver_contract
    }

    pub fn get_system_address(&self) -> (r: Address)
        ensures
            r == self.spec_system_address(),
    {
        self.system_address
    }

    /// Calldata of `commitState` for an event: its time in seconds and its
    /// canonical encoding. Fails when the time lies before the UNIX epoch.
    pub fn encode_state_sync_data(&self, event_record_with_time: EventRecordWithTime) -> (r: Result<
        Vec<u8>,
        HeimdallError,
    >)
        ensures
            event_record_with_time.time < 0 ==> r == Err::<Vec<u8>, _>(
                HeimdallError::SystemTimeError,
            ),
            event_record_with_time.time >= 0 ==> (r matches Ok(data) && data@
                == commit_state_calldata(
                event_record_with_time.time as nat,
                rlp_event_record(event_record_with_time.event_record),
            )),
    {
        self.encode_state_sync_data_ref(&event_record_with_time)
    }

    /// `encode_state_sync_data` on a borrowed event.
    pub fn encode_state_sync_data_ref(&self, event_record_with_time: &EventRecordWithTime) -> (r: Result<
        Vec<u8>,
        HeimdallError,
    >)
        ensures
            event_record_with_time.time < 0 ==> r == Err::<Vec<u8>, _>(
                HeimdallError::SystemTimeError,
            ),
            event_record_with_time.time >= 0 ==> (r matches Ok(data) && data@
                == commit_state_calldata(
                event_record_with_time.time as nat,
                rlp_event_record(event_record_with_time.event_record),
            )),
    {
        if event_record_with_time.time < 0 {
            return Err(HeimdallError::SystemTimeError);
        }
        let sync_time = event_record_with_time.time as u64;
        let record = encode_event_record(&event_record_with_time.event_record);
        let mut data: Vec<u8> = Vec::new();
        data.push(0x19);
        data.push(0x49);
        data.push(0x4a);
        data.push(0x17);
        let mut word = be_fixed_u64(sync_time, 32);
        data.append(&mut word);
        let mut word = be_fixed_u64(64, 32);
        data.append(&mut word);
        let mut word = be_fixed_u64(record.len() as u64, 32);
        data.append(&mut word);
        let ghost head = data@;
        let mut i: usize = 0;
        while i < record.len()
            invariant
                i <= record@.len(),
                data@ == head + record@.subrange(0, i as int),
            decreases record@.len() - i,
        {
            data.push(record[i]);
            i = i + 1;
            assert(data@ =~= head + record@.subrange(0, i as int));
        }
        let pad: usize = (32 - record.len() % 32) % 32;
        let ghost body = data@;
        let mut k: usize = 0;
        while k < pad
            invariant
                k <= pad,
                data@ == body + Seq::new(k as nat, |i: int| 0u8),
            decreases pad - k,
        {
            data.push(0);
            k = k + 1;
            assert(data@ =~= body + Seq::new(k as nat, |i: int| 0u8));
        }
        assert(data@ =~= commit_state_calldata(
            sync_time as nat,
            rlp_event_record(event_record_with_time.event_record),
        ));
        Ok(data)
    }

    /// Calldata of `lastStateId()`: its selector alone.
    pub fn last_state_id(&self) -> (r: Result<Vec<u8>, HeimdallError>)
        ensures
            r matches Ok(data) && data@ == last_state_id_selector(),
    {
        let data = vec![0x54u8, 0x07, 0xca, 0x67];
        assert(data@ =~= last_state_id_selector());
        Ok(data)
    }

    /// Decodes the `uint256` that `lastStateId()` returns; fails when the data
    /// is shorter than a word or the value does not fit in 64 bits.
    pub fn decode_last_state_id(&self, data: &[u8]) -> (r: Result<u64, HeimdallError>)
        ensures
            r is Ok <==> data@.len() >= 32 && be_value(data@.subrange(0, 32)) <= u64::MAX,
            r is Ok <==> is_u64_return(data@),
            r matches Ok(v) ==> v as nat == be_value(data@.subrange(0, 32)),
            r matches Err(e) ==> e is SolDecodeError,
    {
        if data.len() < 32 {
            return Err(HeimdallError::SolDecodeError(String::from_str("buffer overrun while deserializing")));
        }
        let mut i: usize = 0;
        while i < 24
            invariant
                i <= 24,
                data@.len() >= 32,
                forall|j: int| 0 <= j < i ==> data@[j] == 0,
            decreases 24 - i,
        {
            if data[i] != 0 {
                proof {
                    assert(data@.subrange(0, 32)[i as int] != 0);
                    lemma_word_fits_u64(data@.subrange(0, 32));
                }
                return Err(HeimdallError::SolDecodeError(String::from_str("Failed to decode last state id")));
            }
            i = i + 1;
        }
        let mut v: u64 = 0;
        let mut k: usize = 24;
        while k < 32
            invariant
                24 <= k <= 32,
                data@.len() >= 32,
                v as nat == be_value(data@.subrange(24, k as int)),
                v < pow256((k - 24) as nat),
            decreases 32 - k,
        {
            proof {
                assert(data@.subrange(24, k + 1).drop_last() =~= data@.subrange(24, k as int));
                lemma_pow256_bound((k - 24) as nat);
                assert(v * 256 + 255 < 256 * pow256((k - 24) as nat)) by (nonlinear_arith)
                    requires
                        v < pow256((k - 24) as nat),
                ;
            }
            v = v * 256 + data[k] as u64;
            k = k + 1;
        }
        proof {
            lemma_word_fits_u64(data@.subrange(0, 32));
            lemma_be_value_zero_prefix(data@.subrange(0, 32), 24);
            assert(data@.subrange(0, 32).subrange(24, 32) =~= data@.subrange(24, 32));
        }
        Ok(v)
    }
}

/// 256 to the power `k`.
pub open spec fn pow256(k: nat) -> nat
    decreases k,
{
    if k == 0 {
        1
    } else {
        256 * pow256((k - 1) as nat)
    }
}

proof fn lemma_pow256_bound(k: nat)
    requires
        k < 8,
    ensures
        256 * pow256(k) <= 0x1_0000_0000_0000_0000,
{
    reveal_with_fuel(pow256, 8);
    if k == 0 {
    } else if k == 1 {
    } else if k == 2 {
    } else if k == 3 {
    } else if k == 4 {
    } else if k == 5 {
    } else if k == 6 {
    } else {
    }
}

} // verus!
