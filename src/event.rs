//! State-sync events relayed from the checkpoint layer.

use vstd::prelude::*;
use vstd::utf8::encode_utf8;
use crate::primitives::{Address, B256};
use crate::rlp::{rlp_bytes, rlp_encode_bytes, rlp_encode_u64, rlp_header, rlp_list_header, rlp_uint};

verus! {

broadcast use vstd::multiset::group_multiset_axioms, vstd::seq_lib::group_to_multiset_ensures;

/// Path of the checkpoint layer's event-list endpoint.
pub const FETCH_STATE_SYNC_EVENTS_PATH: &'static str = "clerk/event-record/list";

/// An event observed on the checkpoint layer, to be replayed on this chain.
#[derive(Clone, Debug, PartialEq, Eq)]
pub struct EventRecord {
    pub id: u64,
    pub contract_address: Address,
    pub data: Vec<u8>,
    pub tx_hash: B256,
    pub log_index: u64,
    pub chain_id: String,
}

/// An event with the time at which the checkpoint layer observed it.
#[derive(Clone, Debug, PartialEq, Eq)]
pub struct EventRecordWithTime {
    pub event_record: EventRecord,
    /// Whole seconds since the UNIX epoch, negative before it.
    pub time: i64,
}

/// A page of the checkpoint layer's event list.
#[derive(Clone, Debug)]
pub struct StateSyncEventsResponse {
    pub height: String,
    pub result: Option<Vec<EventRecordWithTime>>,
}

/// The fields of a record, each encoded, in declaration order.
pub open spec fn rlp_event_payload(r: EventRecord) -> Seq<u8> {
    rlp_uint(r.id as nat) + rlp_bytes(r.contract_address.0@) + rlp_bytes(r.data@) + rlp_bytes(
        r.tx_hash.0@,
    ) + rlp_uint(r.log_index as nat) + rlp_bytes(encode_utf8(r.chain_id@))
}

/// The canonical encoding of a record: a list of its fields.
pub open spec fn rlp_event_record(r: EventRecord) -> Seq<u8> {
    rlp_header(true, rlp_event_payload(r).len()) + rlp_event_payload(r)
}

/// Encodes a record as a list of its fields in declaration order.
pub fn encode_event_record(record: &EventRecord) -> (r: Vec<u8>)
    ensures
        r@ == rlp_event_record(*record),
{
    let mut payload = rlp_encode_u64(record.id);
    let mut part = rlp_encode_bytes(record.contract_address.0.as_slice());
    payload.append(&mut part);
    let mut part = rlp_encode_bytes(record.data.as_slice());
    payload.append(&mut part);
    let mut part = rlp_encode_bytes(record.tx_hash.0.as_slice());
    payload.append(&mut part);
    let mut part = rlp_encode_u64(record.log_index);
    payload.append(&mut part);
    let mut part = rlp_encode_bytes(record.chain_id.as_str().as_bytes());
    payload.append(&mut part);
    assert(payload@ =~= rlp_event_payload(*record));
    let mut out = rlp_list_header(payload.len());
    out.append(&mut payload);
    out
}

/// The event ids ascend, equal ids allowed.
pub open spec fn sorted_by_id(s: Seq<EventRecordWithTime>) -> bool {
    forall|i: int, j: int|
        0 <= i < j < s.len() ==> s[i].event_record.id <= s[j].event_record.id
}

/// Orders events by id, keeping every event.
pub fn sort_by_id(events: Vec<EventRecordWithTime>) -> (r: Vec<EventRecordWithTime>)
    ensures
        sorted_by_id(r@),
        r@.to_multiset() == events@.to_multiset(),
{
    let mut rest = events;
    let mut sorted: Vec<EventRecordWithTime> = Vec::new();
    while rest.len() > 0
        invariant
            sorted_by_id(sorted@),
            sorted@.to_multiset().add(rest@.to_multiset()) == events@.to_multiset(),
        decreases rest@.len(),
    {
        let ghost before = rest@;
        let item = rest.pop().unwrap();
        proof {
            assert(before =~= rest@.push(item));
        }
        let id = item.event_record.id;
        let mut j: usize = 0;
        while j < sorted.len() && sorted[j].event_record.id <= id
            invariant
                j <= sorted@.len(),
                forall|k: int| 0 <= k < j ==> sorted@[k].event_record.id <= id,
            decreases sorted@.len() - j,
        {
            j = j + 1;
        }
        let ghost old_sorted = sorted@;
        sorted.insert(j, item);
        proof {
            assert forall|a: int, b: int| 0 <= a < b < sorted@.len() implies sorted@[a].event_record.id
                <= sorted@[b].event_record.id by {
                if j < old_sorted.len() {
                    assert(id < old_sorted[j as int].event_record.id);
                }
                if a < j && b > j {
                    assert(old_sorted[a].event_record.id <= id);
                }
                if a == j && b > j {
                    assert(old_sorted[j as int].event_record.id <= old_sorted[b - 1].event_record.id
                        || j as int == b - 1);
                }
            }
            vstd::seq_lib::to_multiset_insert(old_sorted, j as int, item);
        }
    }
    sorted
}

} // verus!
