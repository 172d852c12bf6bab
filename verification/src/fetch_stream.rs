//! The client side of a paginated, rate-limited fetch, as a state machine:
//! it decides when to ask for the next page, when to sleep instead, when to
//! ask for the same page again, and when the records have come to an end.
//! Whoever drives it sends the requests, sleeps and decodes the records.
//!
//! A request that the server has granted stays charged there whatever the
//! client does next: a stream that is dropped while it waits cannot take
//! back the cost of the page it asked for.

use vstd::prelude::*;
use crate::bucket_laws::lemma_observe_nothing_elapsed;
use crate::database::{
    calc_query_cost,
    query_cost,
    FieldSet,
    ServerField,
    ServerQuery,
    DEFAULT_PAGE_SIZE,
    LEAK_PER_SECOND,
    MAX_BUCKET_CAPACITY,
};
use crate::headers::{
    bucket_from_values,
    header_lookup,
    FromHeaderError,
};
use crate::leaky_bucket::{lemma_no_leak_no_decay, BucketState, LeakyBucket};
use crate::time_span::TimeSpan;
use crate::{BUCKET_CAPACITY_HEADER, BUCKET_LEAK_PER_SECOND_HEADER, BUCKET_POINTS_HEADER};
use reqwest::header::{HeaderMap, HeaderValue};

verus! {

/// The status with which the server turns a request down for want of
/// budget.
pub const TOO_MANY_REQUESTS: u16 = 429;

/// What a body is, as far as the stream looks at it.
#[derive(Clone, Copy, Debug, PartialEq, Eq, Structural)]
pub enum JsonShape {
    /// A JSON object with this many members.
    Object(usize),
    /// A JSON array with this many elements.
    Array(usize),
    /// Another JSON value.
    Other,
    /// No JSON at all.
    Invalid,
}

/// The shape of the value that `serde_json::from_str` reads from a text.
pub uninterp spec fn json_shape_of(text: Seq<char>) -> JsonShape;

/// Parses `text` with `serde_json::from_str` into a `serde_json::Value` and
/// tells its shape: an object or an array with the number of its members,
/// another value, or an error of the parser. The contract claims only that
/// the shape depends on the text and on nothing else.
#[verifier::external_body]
pub(crate) fn json_shape(text: &str) -> (shape: JsonShape)
    ensures
        shape == json_shape_of(text@),
{
    match serde_json::from_str::<serde_json::Value>(text) {
        Ok(serde_json::Value::Object(members)) => JsonShape::Object(members.len()),
        Ok(serde_json::Value::Array(elements)) => JsonShape::Array(elements.len()),
        Ok(_) => JsonShape::Other,
        Err(_) => JsonShape::Invalid,
    }
}

/// What a page holds.
#[derive(Clone, Copy, Debug, PartialEq, Eq, Structural)]
pub enum PageOutcome {
    /// No record: the records have come to an end.
    Empty,
    /// Records, and whether a further page is to be asked for.
    Page { has_another_page: bool },
}

/// What a page of the given shape holds, where pages of `page_size` were
/// asked for. A collection without records is the end. One with fewer
/// records than a page is the last page; any other is followed by a further
/// page. A body that is no collection is left to whoever decodes it, and
/// counts as a page with a successor until then.
pub open spec fn page_outcome_of(shape: JsonShape, page_size: nat) -> PageOutcome {
    match shape {
        JsonShape::Object(records) | JsonShape::Array(records) => if records == 0 {
            PageOutcome::Empty
        } else {
            PageOutcome::Page { has_another_page: records >= page_size }
        },
        JsonShape::Other | JsonShape::Invalid => PageOutcome::Page { has_another_page: true },
    }
}

/// Tells what a page of the given shape holds; see [`page_outcome_of`].
pub fn page_outcome(shape: JsonShape, page_size: usize) -> (outcome: PageOutcome)
    ensures
        outcome == page_outcome_of(shape, page_size as nat),
{
    match shape {
        JsonShape::Object(records) | JsonShape::Array(records) => if records == 0 {
            PageOutcome::Empty
        } else {
            PageOutcome::Page { has_another_page: records >= page_size }
        },
        JsonShape::Other | JsonShape::Invalid => PageOutcome::Page { has_another_page: true },
    }
}

/// Why a stream has ended before the records did.
#[derive(Clone, Copy, Debug, PartialEq, Eq, Structural)]
pub enum StreamError {
    /// The request failed, or the server answered with a failure other
    /// than a rejection for want of budget.
    Transport,
    /// The body of a page could not be decoded.
    MalformedBody,
    /// The server has turned the same page down more often than the stream
    /// was told to put up with.
    AdmissionRejected,
}

/// Where a stream stands.
#[derive(Clone, Copy, Debug, PartialEq, Eq, Structural)]
pub enum Phase {
    /// Nothing is under way, and nothing has been decided yet.
    Idle,
    /// The next page is due: the local estimate of the budget is to say
    /// whether to ask for it now.
    Estimating,
    /// A request is under way.
    AwaitingHeaders,
    /// The server has granted the page, and its body is under way.
    AwaitingBody,
    /// A timer is under way, after which the page that is due is tried.
    Sleeping,
    /// The stream has ended.
    Done,
}

/// What the driver of a stream is to do next.
#[derive(Clone, Copy, Debug, PartialEq, Eq, Structural)]
pub enum Action {
    /// Send the request for this page, then report the response.
    Fetch { page: usize },
    /// Read the body of the response, then report it.
    ReadBody,
    /// Sleep this long, then report that the timer has gone off.
    Sleep(TimeSpan),
    /// Hand on the records of the page that was read; `last` tells that the
    /// stream has ended with them.
    Yield { last: bool },
    /// End the stream: there are no further records.
    Finish,
    /// End the stream with this error.
    Fail(StreamError),
    /// Go on waiting for what is under way.
    Wait,
}

/// What a stream is, mathematically.
pub struct StreamState {
    /// Where the stream stands.
    pub phase: Phase,
    /// The page that is due, counted from zero.
    pub page: nat,
    /// The size of the pages that are asked for.
    pub page_size: nat,
    /// What one page costs.
    pub cost: nat,
    /// The fields that are asked for; none stands for all of them.
    pub fields: Set<ServerField>,
    /// The local estimate of the server's budget, once there is one.
    pub bucket: Option<BucketState>,
    /// How often a page may be asked for again after the server has turned
    /// it down; as often as it takes where there is no limit.
    pub retry_limit: Option<u32>,
    /// How often the server has turned down the page that is due.
    pub retries: nat,
}

/// The wait that is assumed where no estimate of the budget is at hand:
/// the seconds in which the default leak frees `cost` points, rounded up.
pub open spec fn rough_wait_secs(cost: nat) -> nat {
    if cost % (LEAK_PER_SECOND as nat) == 0 {
        cost / (LEAK_PER_SECOND as nat)
    } else {
        cost / (LEAK_PER_SECOND as nat) + 1
    }
}

/// The wait before `cost` is tried again after the server has turned it
/// down: what the estimate says, and the rough wait where there is none.
pub open spec fn backoff_of(bucket: Option<BucketState>, cost: nat) -> TimeSpan {
    match bucket {
        Some(bucket) => TimeSpan::of_nanos(bucket.wait_nanos(cost)),
        None => TimeSpan { secs: rough_wait_secs(cost) as u64, nanos: 0 },
    }
}

/// Whether the server has reported a budget that an estimate can be made
/// of: one that drains. A budget that never drains frees no room however
/// long one waits, so no wait can be computed from it.
pub open spec fn usable(reported: Option<BucketState>) -> bool {
    reported matches Some(bucket) && bucket.leak_per_second > 0
}

/// Whether a status is a failure: a client error or a server error.
pub open spec fn is_failure(status: u16) -> bool {
    400 <= status <= 599
}

impl StreamState {
    /// The stream that has not asked for anything yet: the first page of
    /// the given fields is due, in pages of the default size.
    pub open spec fn initial(fields: Set<ServerField>, retry_limit: Option<u32>) -> StreamState {
        StreamState {
            phase: Phase::Idle,
            page: 0,
            page_size: DEFAULT_PAGE_SIZE as nat,
            cost: query_cost(fields.len(), None),
            fields,
            bucket: None,
            retry_limit,
            retries: 0,
        }
    }

    /// The page and the sizes fit their machine types, and the estimate,
    /// if there is one, is a well-formed bucket that drains.
    pub open spec fn wf(self) -> bool {
        &&& self.page <= usize::MAX
        &&& self.page_size <= u16::MAX
        &&& self.cost <= u16::MAX
        &&& self.retries <= u32::MAX
        &&& self.bucket matches Some(bucket) ==> bucket.wf() && bucket.leak_per_second > 0
    }

    /// Whether the page that is due may not be asked for again once the
    /// server has turned it down.
    pub open spec fn retries_exhausted(self) -> bool {
        self.retry_limit matches Some(limit) && self.retries >= limit
    }

    /// The count of rejections after one more; it stops at the largest
    /// 32-bit number.
    pub open spec fn one_more_retry(self) -> nat {
        if self.retries < u32::MAX {
            self.retries + 1
        } else {
            self.retries
        }
    }

    /// What the driver is told where nothing changes: that the stream has
    /// ended, or to go on waiting.
    pub open spec fn resting(self) -> Action {
        if self.phase is Done {
            Action::Finish
        } else {
            Action::Wait
        }
    }

    /// The step from `Idle` or `Estimating`, `elapsed` nanoseconds after the
    /// estimate was last observed. Without an estimate the page is asked
    /// for. With one, the page is asked for if the estimate affords its
    /// cost, which is then charged to it; else the stream sleeps for as
    /// long as the estimate takes to afford it.
    pub open spec fn estimate(self, elapsed: nat) -> (StreamState, Action) {
        if !(self.phase is Idle || self.phase is Estimating) {
            (self, self.resting())
        } else {
            match self.bucket {
                None => (
                    StreamState { phase: Phase::AwaitingHeaders, ..self },
                    Action::Fetch { page: self.page as usize },
                ),
                Some(bucket) => {
                    let seen = bucket.observe(elapsed);
                    if seen.affords(self.cost) {
                        (
                            StreamState {
                                phase: Phase::AwaitingHeaders,
                                bucket: Some(seen.charge(self.cost)),
                                ..self
                            },
                            Action::Fetch { page: self.page as usize },
                        )
                    } else {
                        (
                            StreamState { phase: Phase::Sleeping, bucket: Some(seen), ..self },
                            Action::Sleep(TimeSpan::of_nanos(seen.wait_nanos(self.cost))),
                        )
                    }
                },
            }
        }
    }

    /// The step when the timer goes off: the page that is due is
    /// estimated again.
    pub open spec fn timer(self) -> StreamState {
        if self.phase is Sleeping {
            StreamState { phase: Phase::Estimating, ..self }
        } else {
            self
        }
    }

    /// The estimate of the budget once a response has come in, `elapsed`
    /// nanoseconds after the estimate was last observed: what the server
    /// has reported, if that is usable; else what there was before, or an
    /// empty bucket of the default size where there was nothing, filled
    /// with the cost of the request that was just made. The second is the
    /// cautious choice: it never takes the budget for emptier than the
    /// first would.
    pub open spec fn reconciled(self, elapsed: nat, reported: Option<BucketState>) -> BucketState {
        if usable(reported) {
            reported->0
        } else {
            match self.bucket {
                Some(bucket) => bucket.observe(elapsed).fill(self.cost),
                None => BucketState::fresh(
                    0,
                    MAX_BUCKET_CAPACITY as nat,
                    LEAK_PER_SECOND as nat,
                ).fill(self.cost),
            }
        }
    }

    /// The step from `AwaitingHeaders` when a response has come in with
    /// `status`. The estimate is reconciled with what the server reports.
    /// A rejection for want of budget sends the stream to sleep for as long
    /// as the estimate takes to afford the page, which stays due; unless
    /// the page has been turned down as often as the limit allows, which
    /// ends the stream. Any other failure ends the stream. Any other status
    /// lets the body be read, and the count of rejections starts anew.
    pub open spec fn response(self, elapsed: nat, status: u16, reported: Option<BucketState>) -> (
        StreamState,
        Action,
    ) {
        if !(self.phase is AwaitingHeaders) {
            (self, self.resting())
        } else {
            let bucket = self.reconciled(elapsed, reported);
            if status == TOO_MANY_REQUESTS && self.retries_exhausted() {
                (
                    StreamState { phase: Phase::Done, bucket: Some(bucket), ..self },
                    Action::Fail(StreamError::AdmissionRejected),
                )
            } else if status == TOO_MANY_REQUESTS {
                (
                    StreamState {
                        phase: Phase::Sleeping,
                        bucket: Some(bucket),
                        retries: self.one_more_retry(),
                        ..self
                    },
                    Action::Sleep(backoff_of(Some(bucket), self.cost)),
                )
            } else if is_failure(status) {
                (
                    StreamState { phase: Phase::Done, bucket: Some(bucket), ..self },
                    Action::Fail(StreamError::Transport),
                )
            } else {
                (
                    StreamState {
                        phase: Phase::AwaitingBody,
                        bucket: Some(bucket),
                        retries: 0,
                        ..self
                    },
                    Action::ReadBody,
                )
            }
        }
    }

    /// The step from `AwaitingBody` when a body of the given shape has come
    /// in. A page without records ends the stream. A page with records is
    /// handed on; if it has a successor, that page becomes due, and else
    /// the stream ends with it. (So it does if the pages cannot be counted
    /// any further.)
    pub open spec fn body(self, shape: JsonShape) -> (StreamState, Action) {
        if !(self.phase is AwaitingBody) {
            (self, self.resting())
        } else {
            match page_outcome_of(shape, self.page_size) {
                PageOutcome::Empty => (StreamState { phase: Phase::Done, ..self }, Action::Finish),
                PageOutcome::Page { has_another_page } => if has_another_page && self.page
                    < usize::MAX {
                    (
                        StreamState { phase: Phase::Estimating, page: self.page + 1, ..self },
                        Action::Yield { last: false },
                    )
                } else {
                    (StreamState { phase: Phase::Done, ..self }, Action::Yield { last: true })
                },
            }
        }
    }

    /// The step when the request or the reading of the body has failed:
    /// the stream ends with the error, if anything was under way.
    pub open spec fn transport_failure(self) -> (StreamState, Action) {
        if self.phase is AwaitingHeaders || self.phase is AwaitingBody {
            (StreamState { phase: Phase::Done, ..self }, Action::Fail(StreamError::Transport))
        } else {
            (self, self.resting())
        }
    }

    /// The step when the records of the page that was handed on could not
    /// be decoded: the stream ends, whether or not a further page was due.
    pub open spec fn malformed_body(self) -> StreamState {
        StreamState { phase: Phase::Done, ..self }
    }
}

/// The state of an estimate, if there is one.
pub open spec fn estimate_of(bucket: Option<LeakyBucket>) -> Option<BucketState> {
    match bucket {
        Some(bucket) => Some(bucket@),
        None => None,
    }
}

/// The budget that the server has reported, if it could be read.
pub open spec fn reported_by(reported: Result<LeakyBucket, FromHeaderError>) -> Option<
    BucketState,
> {
    match reported {
        Ok(bucket) => Some(bucket@),
        Err(_) => None,
    }
}

/// The budget that the headers of a response report, if they report one.
pub open spec fn reported_in(headers: HeaderMap<HeaderValue>) -> Option<BucketState> {
    match bucket_from_values(
        header_lookup(headers, BUCKET_POINTS_HEADER@),
        header_lookup(headers, BUCKET_CAPACITY_HEADER@),
        header_lookup(headers, BUCKET_LEAK_PER_SECOND_HEADER@),
    ) {
        Ok(bucket) => Some(bucket),
        Err(_) => None,
    }
}

/// Whether an estimate, if there is one, is a well-formed bucket.
pub open spec fn estimate_wf(bucket: Option<LeakyBucket>) -> bool {
    bucket matches Some(bucket) ==> bucket@.wf()
}

/// What became of an estimate, and whether to wait, when the cost of a
/// request was put to it `elapsed` nanoseconds after its last observation:
/// an estimate that affords the cost is charged with it and asks for no
/// wait; one that does not is left as observed and asks for the wait that
/// it takes to afford the cost. Without an estimate there is no wait.
pub open spec fn wait_for_request(before: Option<BucketState>, elapsed: nat, cost: nat) -> (
    Option<BucketState>,
    Option<TimeSpan>,
) {
    match before {
        None => (None, None),
        Some(bucket) => {
            let seen = bucket.observe(elapsed);
            if seen.affords(cost) {
                (Some(seen.charge(cost)), None)
            } else {
                (Some(seen), Some(TimeSpan::of_nanos(seen.wait_nanos(cost))))
            }
        },
    }
}

/// Moves the moment at which an estimate was last observed to now, and
/// returns the time that went by since; nothing where there is no
/// estimate.
fn tick_estimate(bucket: &mut Option<LeakyBucket>) -> (elapsed: TimeSpan)
    ensures
        estimate_of(*final(bucket)) == estimate_of(*old(bucket)),
        estimate_wf(*final(bucket)),
{
    match bucket.take() {
        Some(mut estimate) => {
            let elapsed = estimate.tick();
            *bucket = Some(estimate);
            elapsed
        },
        None => TimeSpan::zero(),
    }
}

/// Puts the cost of a request to the estimate of the budget as it is
/// `elapsed` after its last observation, and returns the time to wait
/// before the request is worth sending, if there is any; see
/// [`wait_for_request`].
pub fn get_wait_time_for_request_after(
    bucket: &mut Option<LeakyBucket>,
    elapsed: TimeSpan,
    query_cost: u16,
) -> (wait: Option<TimeSpan>)
    requires
        estimate_of(*old(bucket)) matches Some(estimate) ==> estimate.can_wait_for(
            query_cost as nat,
        ),
    ensures
        (estimate_of(*final(bucket)), wait) == wait_for_request(
            estimate_of(*old(bucket)),
            elapsed@,
            query_cost as nat,
        ),
        estimate_wf(*final(bucket)),
{
    match bucket.take() {
        None => None,
        Some(mut estimate) => {
            proof {
                use_type_invariant(&estimate);
                if estimate@.leak_per_second == 0 {
                    lemma_no_leak_no_decay(estimate@, elapsed@);
                }
            }
            let wait = match estimate.add_after(elapsed, query_cost) {
                Ok(_) => None,
                Err(_) => {
                    proof {
                        lemma_observe_nothing_elapsed(estimate@);
                    }
                    Some(estimate.wait_time_to_use_after(TimeSpan::zero(), query_cost))
                },
            };
            *bucket = Some(estimate);
            wait
        },
    }
}

/// Puts the cost of a request to the estimate of the budget, as
/// [`get_wait_time_for_request_after`] does for the time that the clock
/// shows to have gone by.
pub fn get_wait_time_for_request(bucket: &mut Option<LeakyBucket>, query_cost: u16) -> (wait:
    Option<TimeSpan>)
    requires
        estimate_of(*old(bucket)) matches Some(estimate) ==> estimate.can_wait_for(
            query_cost as nat,
        ),
    ensures
        exists|elapsed: nat|
            (estimate_of(*final(bucket)), wait) == #[trigger] wait_for_request(
                estimate_of(*old(bucket)),
                elapsed,
                query_cost as nat,
            ),
        estimate_wf(*final(bucket)),
{
    let elapsed = tick_estimate(bucket);
    get_wait_time_for_request_after(bucket, elapsed, query_cost)
}

/// The wait that is assumed where no estimate of the budget is at hand;
/// see [`rough_wait_secs`].
pub fn rough_wait(query_cost: u16) -> (wait: TimeSpan)
    ensures
        wait == (TimeSpan { secs: rough_wait_secs(query_cost as nat) as u64, nanos: 0 }),
{
    let rate: u16 = LEAK_PER_SECOND as u16;
    let whole: u16 = query_cost / rate;
    let secs: u16 = if query_cost % rate != 0 {
        whole + 1
    } else {
        whole
    };
    TimeSpan::from_secs(secs as u64)
}

/// Observes the estimate of the budget `elapsed` after its last
/// observation, and returns the wait before `query_cost` is tried again
/// after the server has turned it down; see [`backoff_of`].
pub fn backoff_after(bucket: &mut Option<LeakyBucket>, elapsed: TimeSpan, query_cost: u16) -> (wait:
    TimeSpan)
    requires
        estimate_of(*old(bucket)) matches Some(estimate) ==> estimate.can_wait_for(
            query_cost as nat,
        ),
    ensures
        estimate_of(*final(bucket)) == match estimate_of(*old(bucket)) {
            Some(estimate) => Some(estimate.observe(elapsed@)),
            None => None,
        },
        wait == backoff_of(estimate_of(*final(bucket)), query_cost as nat),
        estimate_wf(*final(bucket)),
{
    match bucket.take() {
        Some(mut estimate) => {
            let wait = estimate.wait_time_to_use_after(elapsed, query_cost);
            *bucket = Some(estimate);
            wait
        },
        None => rough_wait(query_cost),
    }
}

/// A stream of pages, seen from the client: what is asked for, what a page
/// costs, what the client believes of the server's budget, and where the
/// stream stands.
#[derive(Debug)]
pub struct FetchStream {
    query: ServerQuery,
    query_cost: u16,
    bucket: Option<LeakyBucket>,
    phase: Phase,
    retry_limit: Option<u32>,
    retries: u32,
}

impl View for FetchStream {
    type V = StreamState;

    closed spec fn view(&self) -> StreamState {
        StreamState {
            phase: self.phase,
            page: self.query.spec_page() as nat,
            page_size: self.query.spec_page_size() as nat,
            cost: self.query_cost as nat,
            fields: self.query.fields@,
            bucket: estimate_of(self.bucket),
            retry_limit: self.retry_limit,
            retries: self.retries as nat,
        }
    }
}

impl FetchStream {
    /// A stream of the pages of the given fields, in pages of the default
    /// size, that has not asked for anything yet, and that asks for a page
    /// again as often as the server turns it down.
    pub fn new(fields: FieldSet) -> (stream: Self)
        ensures
            stream@ == StreamState::initial(fields@, None),
            stream@.wf(),
    {
        FetchStream::with_retry_limit(fields, None)
    }

    /// A stream as [`new`](Self::new) makes it, that asks for a page again
    /// no more than `retry_limit` times in a row, if that is a number.
    pub fn with_retry_limit(fields: FieldSet, retry_limit: Option<u32>) -> (stream: Self)
        ensures
            stream@ == StreamState::initial(fields@, retry_limit),
            stream@.wf(),
    {
        let query = ServerQuery { fields, page: None, page_size: None };
        let query_cost = calc_query_cost(&query);
        FetchStream { query, query_cost, bucket: None, phase: Phase::Idle, retry_limit, retries: 0 }
    }

    /// How often a page may be asked for again after the server has turned
    /// it down, if there is a limit.
    pub fn retry_limit(&self) -> (limit: Option<u32>)
        ensures
            limit == self@.retry_limit,
    {
        self.retry_limit
    }

    /// How often the server has turned down the page that is due.
    pub fn retries(&self) -> (retries: u32)
        ensures
            retries == self@.retries,
    {
        self.retries
    }

    /// The query for the page that is due.
    pub fn query(&self) -> (query: &ServerQuery)
        ensures
            query.fields@ == self@.fields,
            query.spec_page() == self@.page,
            query.spec_page_size() == self@.page_size,
    {
        &self.query
    }

    /// What one page costs.
    pub fn query_cost(&self) -> (cost: u16)
        ensures
            cost == self@.cost,
    {
        self.query_cost
    }

    /// The local estimate of the server's budget, once there is one.
    pub fn bucket(&self) -> (bucket: &Option<LeakyBucket>)
        ensures
            estimate_of(*bucket) == self@.bucket,
    {
        &self.bucket
    }

    /// Where the stream stands.
    pub fn phase(&self) -> (phase: Phase)
        ensures
            phase == self@.phase,
    {
        self.phase
    }

    /// Whether the stream has ended.
    pub fn is_terminated(&self) -> (done: bool)
        ensures
            done == (self@.phase is Done),
    {
        match self.phase {
            Phase::Done => true,
            _ => false,
        }
    }

    /// What the driver is told where nothing changes.
    fn resting(&self) -> (action: Action)
        ensures
            action == self@.resting(),
    {
        match self.phase {
            Phase::Done => Action::Finish,
            _ => Action::Wait,
        }
    }

    /// Decides whether to ask for the page that is due or to sleep first,
    /// with the estimate as it is `elapsed` after its last observation;
    /// see [`StreamState::estimate`].
    pub fn estimate_after(&mut self, elapsed: TimeSpan) -> (action: Action)
        requires
            old(self)@.wf(),
        ensures
            (final(self)@, action) == old(self)@.estimate(elapsed@),
            final(self)@.wf(),
    {
        match self.phase {
            Phase::Idle | Phase::Estimating => {},
            _ => { return self.resting(); },
        }
        let cost = self.query_cost;
        match get_wait_time_for_request_after(&mut self.bucket, elapsed, cost) {
            Some(wait) => {
                self.phase = Phase::Sleeping;
                Action::Sleep(wait)
            },
            None => {
                self.phase = Phase::AwaitingHeaders;
                Action::Fetch { page: self.query.effective_page() }
            },
        }
    }

    /// Decides whether to ask for the page that is due or to sleep first,
    /// as [`estimate_after`](Self::estimate_after) does for the time that
    /// the clock shows to have gone by. The clock is read only where the
    /// step is taken, so that no time is lost to a call out of turn.
    pub fn estimate(&mut self) -> (action: Action)
        requires
            old(self)@.wf(),
        ensures
            exists|elapsed: nat| (final(self)@, action) == #[trigger] old(self)@.estimate(elapsed),
            final(self)@.wf(),
    {
        match self.phase {
            Phase::Idle | Phase::Estimating => {
                let elapsed = tick_estimate(&mut self.bucket);
                self.estimate_after(elapsed)
            },
            _ => {
                let action = self.resting();
                assert((self@, action) == old(self)@.estimate(0));
                action
            },
        }
    }

    /// Takes note that the timer has gone off; see [`StreamState::timer`].
    pub fn on_timer(&mut self)
        requires
            old(self)@.wf(),
        ensures
            final(self)@ == old(self)@.timer(),
            final(self)@.wf(),
    {
        match self.phase {
            Phase::Sleeping => {
                self.phase = Phase::Estimating;
            },
            _ => {},
        }
    }

    /// Takes in a response with `status` and with the budget that the
    /// server has reported, `elapsed` after the estimate was last observed;
    /// see [`StreamState::response`].
    pub fn on_response_after(
        &mut self,
        elapsed: TimeSpan,
        status: u16,
        reported: Result<LeakyBucket, FromHeaderError>,
    ) -> (action: Action)
        requires
            old(self)@.wf(),
        ensures
            (final(self)@, action) == old(self)@.response(elapsed@, status, reported_by(reported)),
            final(self)@.wf(),
    {
        match self.phase {
            Phase::AwaitingHeaders => {},
            _ => { return self.resting(); },
        }
        let cost = self.query_cost;
        let reported = match reported {
            Ok(bucket) => if bucket.leak_per_second() > 0 {
                proof {
                    use_type_invariant(&bucket);
                }
                Some(bucket)
            } else {
                None
            },
            Err(_) => None,
        };
        let estimate = match reported {
            Some(bucket) => bucket,
            None => match self.bucket.take() {
                Some(mut estimate) => {
                    estimate.saturating_add_after(elapsed, cost);
                    estimate
                },
                None => {
                    let mut estimate = LeakyBucket::empty(MAX_BUCKET_CAPACITY, LEAK_PER_SECOND);
                    proof {
                        lemma_observe_nothing_elapsed(estimate@);
                    }
                    estimate.saturating_add_after(TimeSpan::zero(), cost);
                    estimate
                },
            },
        };
        proof {
            lemma_observe_nothing_elapsed(estimate@);
        }
        self.bucket = Some(estimate);
        if status == TOO_MANY_REQUESTS {
            let exhausted = match self.retry_limit {
                Some(limit) => self.retries >= limit,
                None => false,
            };
            if exhausted {
                self.phase = Phase::Done;
                Action::Fail(StreamError::AdmissionRejected)
            } else {
                let wait = backoff_after(&mut self.bucket, TimeSpan::zero(), cost);
                self.retries = self.retries.saturating_add(1);
                self.phase = Phase::Sleeping;
                Action::Sleep(wait)
            }
        } else if 400 <= status && status <= 599 {
            self.phase = Phase::Done;
            Action::Fail(StreamError::Transport)
        } else {
            self.retries = 0;
            self.phase = Phase::AwaitingBody;
            Action::ReadBody
        }
    }

    /// Takes in a response with `status` and `headers`, as
    /// [`on_response_after`](Self::on_response_after) does for the time
    /// that the clock shows to have gone by and for the budget that
    /// [`LeakyBucket::try_from`] reads in the headers.
    pub fn on_response(&mut self, status: u16, headers: &HeaderMap<HeaderValue>) -> (action: Action)
        requires
            old(self)@.wf(),
        ensures
            exists|elapsed: nat|
                (final(self)@, action) == #[trigger] old(self)@.response(
                    elapsed,
                    status,
                    reported_in(*headers),
                ),
            final(self)@.wf(),
    {
        match self.phase {
            Phase::AwaitingHeaders => {
                let elapsed = tick_estimate(&mut self.bucket);
                let reported = LeakyBucket::try_from(headers);
                self.on_response_after(elapsed, status, reported)
            },
            _ => {
                let action = self.resting();
                assert((self@, action) == old(self)@.response(0, status, reported_in(*headers)));
                action
            },
        }
    }

    /// Takes in a body of the given shape; see [`StreamState::body`].
    pub fn on_body_shape(&mut self, shape: JsonShape) -> (action: Action)
        requires
            old(self)@.wf(),
        ensures
            (final(self)@, action) == old(self)@.body(shape),
            final(self)@.wf(),
    {
        match self.phase {
            Phase::AwaitingBody => {},
            _ => { return self.resting(); },
        }
        let page_size: usize = self.query.effective_page_size() as usize;
        match page_outcome(shape, page_size) {
            PageOutcome::Empty => {
                self.phase = Phase::Done;
                Action::Finish
            },
            PageOutcome::Page { has_another_page } => {
                let page = self.query.effective_page();
                if has_another_page && page < usize::MAX {
                    self.query.page = Some(page + 1);
                    self.phase = Phase::Estimating;
                    Action::Yield { last: false }
                } else {
                    self.phase = Phase::Done;
                    Action::Yield { last: true }
                }
            },
        }
    }

    /// Takes in the body of a response, as
    /// [`on_body_shape`](Self::on_body_shape) does for the shape that the
    /// JSON parser finds in it.
    pub fn on_body(&mut self, body: &str) -> (action: Action)
        requires
            old(self)@.wf(),
        ensures
            (final(self)@, action) == old(self)@.body(json_shape_of(body@)),
            final(self)@.wf(),
    {
        let shape = json_shape(body);
        self.on_body_shape(shape)
    }

    /// Takes note that the request, or the reading of the body, has
    /// failed; see [`StreamState::transport_failure`].
    pub fn on_transport_failure(&mut self) -> (action: Action)
        requires
            old(self)@.wf(),
        ensures
            (final(self)@, action) == old(self)@.transport_failure(),
            final(self)@.wf(),
    {
        match self.phase {
            Phase::AwaitingHeaders | Phase::AwaitingBody => {
                self.phase = Phase::Done;
                Action::Fail(StreamError::Transport)
            },
            _ => self.resting(),
        }
    }

    /// Takes note that the records of the page that was handed on could
    /// not be decoded, and ends the stream with that error; see
    /// [`StreamState::malformed_body`].
    pub fn on_malformed_body(&mut self) -> (action: Action)
        requires
            old(self)@.wf(),
        ensures
            final(self)@ == old(self)@.malformed_body(),
            action == Action::Fail(StreamError::MalformedBody),
            final(self)@.wf(),
    {
        self.phase = Phase::Done;
        Action::Fail(StreamError::MalformedBody)
    }
}

/// A stream that has ended stays ended: whatever is reported to it, it
/// does not change, and it never asks for a further page.
pub proof fn lemma_done_is_final(
    state: StreamState,
    elapsed: nat,
    status: u16,
    reported: Option<BucketState>,
    shape: JsonShape,
)
    requires
        state.phase is Done,
    ensures
        state.estimate(elapsed) == (state, Action::Finish),
        state.timer() == state,
        state.response(elapsed, status, reported) == (state, Action::Finish),
        state.body(shape) == (state, Action::Finish),
        state.transport_failure() == (state, Action::Finish),
        state.malformed_body() == state,
{
}

/// A page is asked for only by the estimating step, and only the page
/// that is due.
pub proof fn lemma_only_the_due_page_is_fetched(
    state: StreamState,
    elapsed: nat,
    status: u16,
    reported: Option<BucketState>,
    shape: JsonShape,
)
    requires
        state.wf(),
    ensures
        state.estimate(elapsed).1 is Fetch ==> state.estimate(elapsed).1 == (Action::Fetch {
            page: state.page as usize,
        }) && state.estimate(elapsed).0.phase is AwaitingHeaders,
        !(state.response(elapsed, status, reported).1 is Fetch),
        !(state.body(shape).1 is Fetch),
        !(state.transport_failure().1 is Fetch),
{
}

/// A rejection for want of budget does not move the stream on, as long as
/// the page may be asked for again: the page that was turned down stays
/// due, the stream sleeps, and once the timer has gone off the next page
/// it asks for is that same page.
pub proof fn lemma_rejection_keeps_page(
    state: StreamState,
    elapsed: nat,
    reported: Option<BucketState>,
    later: nat,
)
    requires
        state.wf(),
        state.phase is AwaitingHeaders,
        !state.retries_exhausted(),
    ensures
        ({
            let rejected = state.response(elapsed, TOO_MANY_REQUESTS, reported);
            let retry = rejected.0.timer().estimate(later);
            &&& rejected.0.phase is Sleeping
            &&& rejected.0.page == state.page
            &&& rejected.1 is Sleep
            &&& rejected.0.timer().phase is Estimating
            &&& retry.1 is Fetch || retry.1 is Sleep
            &&& retry.1 is Fetch ==> retry.1 == (Action::Fetch { page: state.page as usize })
            &&& retry.0.page == state.page
        }),
{
}

/// A stream without a limit never gives a page up for being turned down;
/// one with a limit gives it up when the page is turned down once more
/// after it was asked for again as often as the limit allows.
pub proof fn lemma_rejections_end_the_stream_at_the_limit(
    state: StreamState,
    elapsed: nat,
    reported: Option<BucketState>,
)
    requires
        state.wf(),
        state.phase is AwaitingHeaders,
    ensures
        ({
            let rejected = state.response(elapsed, TOO_MANY_REQUESTS, reported);
            &&& rejected.1 == Action::Fail(StreamError::AdmissionRejected)
                <==> state.retries_exhausted()
            &&& state.retries_exhausted() ==> rejected.0.phase is Done
            &&& state.retry_limit is None ==> rejected.1 is Sleep
            &&& !state.retries_exhausted() && state.retries < u32::MAX ==> rejected.0.retries
                == state.retries + 1
        }),
{
}

/// The page that is due moves on by one when a page with a successor has
/// been read, and at no other step; it never moves back.
pub proof fn lemma_page_advances_on_full_pages_only(
    state: StreamState,
    elapsed: nat,
    status: u16,
    reported: Option<BucketState>,
    shape: JsonShape,
)
    requires
        state.wf(),
    ensures
        state.estimate(elapsed).0.page == state.page,
        state.timer().page == state.page,
        state.response(elapsed, status, reported).0.page == state.page,
        state.transport_failure().0.page == state.page,
        state.malformed_body().page == state.page,
        state.body(shape).0.page == if state.body(shape).1 == (Action::Yield { last: false }) {
            state.page + 1
        } else {
            state.page
        },
        state.body(shape).1 == (Action::Yield { last: false }) ==> state.phase is AwaitingBody
            && page_outcome_of(shape, state.page_size) == (PageOutcome::Page {
            has_another_page: true,
        }),
{
}

/// A page with fewer records than were asked for is the last one: it is
/// handed on if it holds any, and the stream has ended.
pub proof fn lemma_short_page_ends_stream(state: StreamState, records: usize)
    requires
        state.phase is AwaitingBody,
        records < state.page_size,
    ensures
        state.body(JsonShape::Array(records)).0.phase is Done,
        state.body(JsonShape::Array(records)).1 == if records == 0 {
            Action::Finish
        } else {
            Action::Yield { last: true }
        },
        state.body(JsonShape::Object(records)) == state.body(JsonShape::Array(records)),
{
}

} // verus!
