//! What the checkpoint-layer client decides: the query of each request, how a
//! span response's status is read, and when the paginated event list is
//! complete. The requests themselves are sent by the caller.

use vstd::prelude::*;
use crate::error::HeimdallError;
use crate::event::{EventRecordWithTime, sort_by_id, sorted_by_id};

verus! {

broadcast use vstd::multiset::group_multiset_axioms, vstd::seq_lib::group_to_multiset_ensures;

/// Most events the checkpoint layer returns per page.
pub const STATE_FETCH_LIMIT: u64 = 50;

/// The character of a decimal digit.
pub open spec fn digit_char(d: nat) -> char {
    if d == 0 {
        '0'
    } else if d == 1 {
        '1'
    } else if d == 2 {
        '2'
    } else if d == 3 {
        '3'
    } else if d == 4 {
        '4'
    } else if d == 5 {
        '5'
    } else if d == 6 {
        '6'
    } else if d == 7 {
        '7'
    } else if d == 8 {
        '8'
    } else {
        '9'
    }
}

/// The decimal representation of `n`, without leading zeros.
pub open spec fn decimal(n: nat) -> Seq<char>
    decreases n,
{
    if n < 10 {
        seq![digit_char(n)]
    } else {
        decimal(n / 10).push(digit_char(n % 10))
    }
}

fn digit_str(d: u64) -> (r: &'static str)
    requires
        d < 10,
    ensures
        r@ == seq![digit_char(d as nat)],
{
    proof {
        reveal_strlit("0");
        reveal_strlit("1");
        reveal_strlit("2");
        reveal_strlit("3");
        reveal_strlit("4");
        reveal_strlit("5");
        reveal_strlit("6");
        reveal_strlit("7");
        reveal_strlit("8");
        reveal_strlit("9");
    }
    match d {
        0 => "0",
        1 => "1",
        2 => "2",
        3 => "3",
        4 => "4",
        5 => "5",
        6 => "6",
        7 => "7",
        8 => "8",
        _ => "9",
    }
}

/// Writes `n` in decimal.
pub fn decimal_string(n: u64) -> (r: String)
    ensures
        r@ == decimal(n as nat),
    decreases n,
{
    if n < 10 {
        String::from_str(digit_str(n))
    } else {
        let mut s = decimal_string(n / 10);
        s.append(digit_str(n % 10));
        s
    }
}

/// The query of a span request.
pub open spec fn span_query_text(span_id: u64) -> Seq<char> {
    "span-id="@ + decimal(span_id as nat)
}

/// The query of a request for one page of state-sync events.
pub open spec fn state_sync_query_text(from_id: u64, to_time: u64) -> Seq<char> {
    "from-id="@ + decimal(from_id as nat) + "&to-time="@ + decimal(to_time as nat) + "&limit="@
        + decimal(STATE_FETCH_LIMIT as nat)
}

/// The query that asks for span `span_id`.
pub fn span_query(span_id: u64) -> (r: String)
    ensures
        r@ == span_query_text(span_id),
{
    let mut q = String::from_str("span-id=");
    let d = decimal_string(span_id);
    q.append(d.as_str());
    q
}

/// The query that asks for events with ids from `from_id`, observed no later
/// than `to_time`, one page at most.
pub fn state_sync_query(from_id: u64, to_time: u64) -> (r: String)
    ensures
        r@ == state_sync_query_text(from_id, to_time),
{
    let mut q = String::from_str("from-id=");
    let d = decimal_string(from_id);
    q.append(d.as_str());
    q.append("&to-time=");
    let d = decimal_string(to_time);
    q.append(d.as_str());
    q.append("&limit=");
    let d = decimal_string(STATE_FETCH_LIMIT);
    q.append(d.as_str());
    q
}

/// Whether an HTTP status is a success (2xx).
pub open spec fn is_success_status(status: u16) -> bool {
    200 <= status < 300
}

/// What the status of a span response means: no content, a failure, or a body
/// to read.
pub fn check_span_status(status: u16) -> (r: Result<(), HeimdallError>)
    ensures
        status == 204 ==> r == Err::<(), _>(HeimdallError::NoResponse),
        status != 204 && !is_success_status(status) ==> r == Err::<(), _>(
            HeimdallError::UnsuccessfulResponse(status),
        ),
        status != 204 && is_success_status(status) ==> r is Ok,
{
    if status == 204 {
        return Err(HeimdallError::NoResponse);
    }
    if status < 200 || status >= 300 {
        return Err(HeimdallError::UnsuccessfulResponse(status));
    }
    Ok(())
}

/// What the caller of the event-list fetch does next.
#[derive(Debug)]
pub enum FetchStep {
    /// Request the page of events with ids from `from_id`, observed no later than `to_time`.
    Request { from_id: u64, to_time: u64 },
    /// The fetch is complete: every event received, ordered by id.
    Done(Vec<EventRecordWithTime>),
    /// The fetch failed.
    Failed(HeimdallError),
}

/// The progress of fetching the state-sync events with ids from some start,
/// observed no later than some time, page by page.
#[derive(Debug)]
pub struct StateSyncFetch {
    from_id: u64,
    to_time: u64,
    collected: Vec<EventRecordWithTime>,
    finished: bool,
}

impl StateSyncFetch {
    /// The first id of the next page to request.
    pub closed spec fn next_from_id(&self) -> u64 {
        self.from_id
    }

    /// The latest observation time of the events asked for.
    pub closed spec fn spec_to_time(&self) -> u64 {
        self.to_time
    }

    /// The events received so far, in the order received.
    pub closed spec fn spec_collected(&self) -> Seq<EventRecordWithTime> {
        self.collected@
    }

    /// Whether the fetch has completed or failed.
    pub closed spec fn spec_finished(&self) -> bool {
        self.finished
    }

    /// A fetch of the events with ids from `from_id` observed no later than `to_time`.
    pub fn new(from_id: u64, to_time: u64) -> (r: Self)
        ensures
            r.next_from_id() == from_id,
            r.spec_to_time() == to_time,
            r.spec_collected().len() == 0,
            !r.spec_finished(),
    {
        StateSyncFetch { from_id, to_time, collected: Vec::new(), finished: false }
    }

    /// The request to send next.
    pub fn next_request(&self) -> (r: FetchStep)
        ensures
            r == (FetchStep::Request { from_id: self.next_from_id(), to_time: self.spec_to_time() }),
    {
        FetchStep::Request { from_id: self.from_id, to_time: self.to_time }
    }

    pub fn is_finished(&self) -> (r: bool)
        ensures
            r == self.spec_finished(),
    {
        self.finished
    }

    /// Completes the fetch with what has been received, ordered by id.
    fn finish(&mut self) -> (r: FetchStep)
        ensures
            final(self).spec_finished(),
            final(self).spec_to_time() == old(self).spec_to_time(),
            r matches FetchStep::Done(v) && sorted_by_id(v@) && v@.to_multiset()
                == old(self).spec_collected().to_multiset(),
    {
        let mut all: Vec<EventRecordWithTime> = Vec::new();
        all.append(&mut self.collected);
        self.finished = true;
        FetchStep::Done(sort_by_id(all))
    }

    /// Takes the response to the last request: its HTTP status and, for a
    /// success other than 204, the list it carried (`None` when absent).
    /// No content, an absent or empty list, or a page shorter than the limit
    /// completes the fetch; a full page asks for the next one.
    pub fn on_response(&mut self, status: u16, result: Option<Vec<EventRecordWithTime>>) -> (r:
        FetchStep)
        requires
            !old(self).spec_finished(),
        ensures
            final(self).spec_to_time() == old(self).spec_to_time(),
            status == 204 ==> (r matches FetchStep::Done(v) && sorted_by_id(v@) && v@.to_multiset()
                == old(self).spec_collected().to_multiset()),
            status != 204 && !is_success_status(status) ==> (r matches FetchStep::Failed(e) && e
                == HeimdallError::UnsuccessfulResponse(status)),
            status != 204 && is_success_status(status) ==> match result {
                None => r matches FetchStep::Done(v) && sorted_by_id(v@) && v@.to_multiset()
                    == old(self).spec_collected().to_multiset(),
                Some(page) => if page@.len() < STATE_FETCH_LIMIT || old(self).next_from_id()
                    + STATE_FETCH_LIMIT > u64::MAX {
                    r matches FetchStep::Done(v) && sorted_by_id(v@) && v@.to_multiset() == (old(
                        self,
                    ).spec_collected() + page@).to_multiset()
                } else {
                    &&& r == (FetchStep::Request {
                        from_id: (old(self).next_from_id() + STATE_FETCH_LIMIT) as u64,
                        to_time: old(self).spec_to_time(),
                    })
                    &&& final(self).next_from_id() == old(self).next_from_id() + STATE_FETCH_LIMIT
                    &&& final(self).spec_collected() == old(self).spec_collected() + page@
                    &&& !final(self).spec_finished()
                },
            },
            r is Request <==> !final(self).spec_finished(),
    {
        if status == 204 {
            return self.finish();
        }
        if status < 200 || status >= 300 {
            self.finished = true;
            return FetchStep::Failed(HeimdallError::UnsuccessfulResponse(status));
        }
        match result {
            None => self.finish(),
            Some(page) => {
                let fetched_count = page.len();
                let mut page = page;
                let ghost before = self.collected@;
                let ghost page_view = page@;
                self.collected.append(&mut page);
                assert(self.collected@ == before + page_view);
                if (fetched_count as u64) < STATE_FETCH_LIMIT || self.from_id > u64::MAX
                    - STATE_FETCH_LIMIT {
                    return self.finish();
                }
                self.from_id = self.from_id + STATE_FETCH_LIMIT;
                FetchStep::Request { from_id: self.from_id, to_time: self.to_time }
            },
        }
    }
}

} // verus!
