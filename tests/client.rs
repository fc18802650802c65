use bor::client::{
    check_span_status, decimal_string, span_query, state_sync_query, FetchStep, StateSyncFetch,
    STATE_FETCH_LIMIT,
};
use bor::error::HeimdallError;
use bor::event::{EventRecord, EventRecordWithTime};
use bor::primitives::{Address, B256};

fn event(id: u64) -> EventRecordWithTime {
    EventRecordWithTime {
        event_record: EventRecord {
            id,
            contract_address: Address([1; 20]),
            data: vec![],
            tx_hash: B256([2; 32]),
            log_index: 0,
            chain_id: "137".to_string(),
        },
        time: 10,
    }
}

fn ids(step: &FetchStep) -> Vec<u64> {
    match step {
        FetchStep::Done(v) => v.iter().map(|e| e.event_record.id).collect(),
        other => panic!("expected Done, got {:?}", other),
    }
}

#[test]
fn events_come_back_ordered_by_id_across_pages() {
    let mut fetch = StateSyncFetch::new(1, 1000);
    let mut first: Vec<EventRecordWithTime> = vec![event(5), event(3), event(4)];
    for id in (100..147).rev() {
        first.push(event(id));
    }
    assert_eq!(first.len() as u64, STATE_FETCH_LIMIT);
    let step = fetch.on_response(200, Some(first));
    assert!(matches!(step, FetchStep::Request { from_id: 51, to_time: 1000 }));
    let step = fetch.on_response(200, Some(vec![event(9), event(6)]));
    let got = ids(&step);
    assert_eq!(&got[..5], &[3, 4, 5, 6, 9]);
    let mut expected = vec![3, 4, 5, 6, 9];
    expected.extend(100..147);
    assert_eq!(got, expected);
    assert!(fetch.is_finished());
}

#[test]
fn single_unsorted_page_is_sorted() {
    let mut fetch = StateSyncFetch::new(3, 50);
    let step = fetch.on_response(200, Some(vec![event(5), event(3), event(4), event(9), event(6)]));
    assert_eq!(ids(&step), vec![3, 4, 5, 6, 9]);
}

#[test]
fn full_page_asks_for_the_next() {
    let mut fetch = StateSyncFetch::new(10, 7);
    assert!(matches!(fetch.next_request(), FetchStep::Request { from_id: 10, to_time: 7 }));
    let page: Vec<EventRecordWithTime> = (10..60).map(event).collect();
    let step = fetch.on_response(200, Some(page));
    assert!(matches!(step, FetchStep::Request { from_id: 60, to_time: 7 }));
    assert!(matches!(fetch.next_request(), FetchStep::Request { from_id: 60, to_time: 7 }));
    assert!(!fetch.is_finished());
}

#[test]
fn short_page_ends_the_fetch() {
    let mut fetch = StateSyncFetch::new(10, 7);
    let page: Vec<EventRecordWithTime> = (10..59).map(event).collect();
    let step = fetch.on_response(200, Some(page));
    assert_eq!(ids(&step), (10..59).collect::<Vec<u64>>());
}

#[test]
fn empty_page_ends_the_fetch() {
    let mut fetch = StateSyncFetch::new(10, 7);
    let full: Vec<EventRecordWithTime> = (10..60).map(event).collect();
    fetch.on_response(200, Some(full));
    let step = fetch.on_response(200, Some(vec![]));
    assert_eq!(ids(&step).len(), 50);
}

#[test]
fn absent_result_ends_the_fetch() {
    let mut fetch = StateSyncFetch::new(10, 7);
    let step = fetch.on_response(200, None);
    assert_eq!(ids(&step), Vec::<u64>::new());
}

#[test]
fn no_content_ends_the_fetch_with_what_was_received() {
    let mut fetch = StateSyncFetch::new(10, 7);
    let full: Vec<EventRecordWithTime> = (10..60).rev().map(event).collect();
    fetch.on_response(200, Some(full));
    let step = fetch.on_response(204, None);
    assert_eq!(ids(&step), (10..60).collect::<Vec<u64>>());
}

#[test]
fn unsuccessful_status_fails_the_fetch() {
    let mut fetch = StateSyncFetch::new(10, 7);
    let step = fetch.on_response(500, None);
    assert!(matches!(step, FetchStep::Failed(HeimdallError::UnsuccessfulResponse(500))));
    assert!(fetch.is_finished());
}

#[test]
fn full_page_at_the_top_of_the_id_range_ends_the_fetch() {
    let start = u64::MAX - 49;
    let mut fetch = StateSyncFetch::new(start, 7);
    let page: Vec<EventRecordWithTime> = (0..50).map(|i| event(start + i)).collect();
    let step = fetch.on_response(200, Some(page));
    assert_eq!(ids(&step).len(), 50);
}

#[test]
fn span_status_is_read() {
    assert_eq!(check_span_status(200), Ok(()));
    assert_eq!(check_span_status(204), Err(HeimdallError::NoResponse));
    assert_eq!(check_span_status(404), Err(HeimdallError::UnsuccessfulResponse(404)));
    assert_eq!(check_span_status(199), Err(HeimdallError::UnsuccessfulResponse(199)));
}

#[test]
fn queries_are_written_in_decimal() {
    assert_eq!(decimal_string(0), "0");
    assert_eq!(decimal_string(9), "9");
    assert_eq!(decimal_string(10), "10");
    assert_eq!(decimal_string(u64::MAX), u64::MAX.to_string());
    assert_eq!(span_query(42), "span-id=42");
    assert_eq!(state_sync_query(1, 1700000000), "from-id=1&to-time=1700000000&limit=50");
}
