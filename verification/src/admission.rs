//! The server side: one leaky bucket that every request is put to, in the
//! order in which the requests come in.
//!
//! The controller owns its bucket, and each request is decided by one call
//! that reads the points, decides and commits: whoever holds the controller
//! lets one request in at a time.

use vstd::prelude::*;
use rand::Rng;
use crate::decimal::{decimal_digits, push_decimal};
use crate::database::{
    calc_query_cost,
    page_end,
    page_start,
    select_page,
    PageRange,
    ServerQuery,
    LEAK_PER_SECOND,
    MAX_BUCKET_CAPACITY,
};
use crate::bucket_laws::lemma_observe_nothing_elapsed;
use crate::leaky_bucket::{BucketState, LeakyBucket, MaxCapacityError};
use crate::time_span::TimeSpan;
use crate::{BUCKET_CAPACITY_HEADER, BUCKET_LEAK_PER_SECOND_HEADER, BUCKET_POINTS_HEADER};

verus! {

/// The most points that are added to the bucket at once on no request's
/// account.
pub const SPORADIC_POINTS_MAX: u16 = 4;

/// Out of how many requests in a hundred points are added to the bucket on
/// no request's account.
pub const SPORADIC_POINTS_PERCENT: u32 = 15;

/// The status of a response that turns a request down for want of budget.
pub const STATUS_TOO_MANY_REQUESTS: u16 = 429;

/// Draws with `rand::thread_rng` and `Rng::gen_ratio` whether an event
/// that happens `numerator` times in `denominator` happens this time.
/// Nothing is claimed about the outcome.
#[verifier::external_body]
fn chance(numerator: u32, denominator: u32) -> bool
    requires
        0 < denominator,
        numerator <= denominator,
{
    rand::thread_rng().gen_ratio(numerator, denominator)
}

/// Draws with `rand::thread_rng` and `Rng::gen_range` a number from `low`
/// to `high`, both included. The contract claims that the number lies in
/// that range, and nothing else of it.
#[verifier::external_body]
fn draw_between(low: u16, high: u16) -> (drawn: u16)
    requires
        low <= high,
    ensures
        low <= drawn <= high,
{
    rand::thread_rng().gen_range(low..=high)
}

/// The state of the bucket that goes with a response.
#[derive(Clone, Copy, Debug, PartialEq, Eq, Structural)]
pub struct BucketInfo {
    /// The points in the bucket.
    pub points: u16,
    /// The capacity of the bucket.
    pub capacity: u16,
    /// What the bucket leaks each second.
    pub leak_per_second: u8,
}

impl BucketInfo {
    /// The three headers that carry the state of the bucket, each with
    /// its value: points, capacity, leak per second.
    pub fn headers(&self) -> (headers: [(&'static str, u16); 3])
        ensures
            headers[0] == (BUCKET_POINTS_HEADER, self.points),
            headers[1] == (BUCKET_CAPACITY_HEADER, self.capacity),
            headers[2] == (BUCKET_LEAK_PER_SECOND_HEADER, self.leak_per_second as u16),
    {
        [
            (BUCKET_POINTS_HEADER, self.points),
            (BUCKET_CAPACITY_HEADER, self.capacity),
            (BUCKET_LEAK_PER_SECOND_HEADER, self.leak_per_second as u16),
        ]
    }
}

/// An error type.
#[derive(Clone, Copy, Debug, PartialEq, Eq, Structural)]
pub enum Error {
    /// The leaky bucket does not have enough free capacity for a specific
    /// request.
    NotEnoughCapacity {
        /// The points of the request.
        request: u16,
        /// The current points in the leaky bucket.
        points: u16,
        /// The capacity of the leaky bucket.
        capacity: u16,
        /// The _leak_ of the bucket for each second.
        ///
        /// Every second the bucket is going to empty by this value.
        leak_per_second: u8,
    },
}

impl Error {
    /// The state of the bucket that the error reports.
    pub fn bucket_info(&self) -> (info: BucketInfo)
        ensures
            *self matches Error::NotEnoughCapacity { points, capacity, leak_per_second, .. }
                && info == (BucketInfo { points, capacity, leak_per_second }),
    {
        match self {
            Error::NotEnoughCapacity { points, capacity, leak_per_second, .. } => BucketInfo {
                points: *points,
                capacity: *capacity,
                leak_per_second: *leak_per_second,
            },
        }
    }

    /// The status of the response that reports the error.
    pub fn status(&self) -> (status: u16)
        ensures
            status == STATUS_TOO_MANY_REQUESTS,
    {
        STATUS_TOO_MANY_REQUESTS
    }

    /// The points that were still free when the request was turned down;
    /// none where the error holds more points than capacity.
    pub fn available(&self) -> (available: u16)
        ensures
            available == self.spec_available(),
    {
        match self {
            Error::NotEnoughCapacity { points, capacity, .. } => capacity.saturating_sub(*points),
        }
    }

    /// The points that were still free when the request was turned down.
    pub open spec fn spec_available(self) -> nat {
        match self {
            Error::NotEnoughCapacity { points, capacity, .. } => if points <= capacity {
                (capacity - points) as nat
            } else {
                0
            },
        }
    }

    /// The words that describe the error: the points that were requested,
    /// the points that were available of the capacity, and the leak, each
    /// number written in base ten.
    pub open spec fn text(self) -> Seq<char> {
        match self {
            Error::NotEnoughCapacity { request, capacity, leak_per_second, .. } => {
                "Not enough capacity. Requested "@ + decimal_digits(request as nat)
                    + " points, available "@ + decimal_digits(self.spec_available()) + "/"@
                    + decimal_digits(capacity as nat) + " points (leak: "@ + decimal_digits(
                    leak_per_second as nat,
                ) + "/s)"@
            },
        }
    }

    /// Describes the error in words: what was requested, what was
    /// available of what capacity, and the leak.
    pub fn message(&self) -> (message: String)
        ensures
            message@ == self.text(),
    {
        match self {
            Error::NotEnoughCapacity { request, capacity, leak_per_second, .. } => {
                let mut message = String::from_str("Not enough capacity. Requested ");
                push_decimal(&mut message, *request);
                message.append(" points, available ");
                push_decimal(&mut message, self.available());
                message.append("/");
                push_decimal(&mut message, *capacity);
                message.append(" points (leak: ");
                push_decimal(&mut message, *leak_per_second as u16);
                message.append("/s)");
                message
            },
        }
    }
}

/// A page that was granted: where its records lie, and the state of the
/// bucket after the charge.
#[derive(Clone, Copy, Debug, PartialEq, Eq, Structural)]
pub struct Granted {
    /// The state of the bucket after the charge.
    pub info: BucketInfo,
    /// The records of the page.
    pub range: PageRange,
}

/// What becomes of a request, mathematically: the bucket is observed
/// `elapsed` nanoseconds after its last observation; the noise, if there
/// is any, is added as far as it fits; and then the cost of the query is
/// charged, if it fits.
pub open spec fn bucket_after_request(
    bucket: BucketState,
    elapsed: nat,
    noise: Option<u16>,
    cost: nat,
) -> BucketState {
    bucket_before_charge(bucket, elapsed, noise).charge(cost)
}

/// The bucket that the cost of a request is put to: observed, and with
/// the noise in it.
pub open spec fn bucket_before_charge(bucket: BucketState, elapsed: nat, noise: Option<u16>)
    -> BucketState {
    match noise {
        Some(points) => bucket.observe(elapsed).fill(points as nat).observe(0),
        None => bucket.observe(elapsed),
    }
}

/// The answer to a request: the page it asks for among `records` records
/// and the bucket after the charge, if its cost fits; and else an error
/// that carries the cost, the points that the bucket held, and the bucket's
/// capacity and leak.
pub open spec fn answer_to_request(
    bucket: BucketState,
    elapsed: nat,
    noise: Option<u16>,
    query: ServerQuery,
    records: nat,
) -> Result<Granted, Error> {
    let before = bucket_before_charge(bucket, elapsed, noise);
    if before.affords(query.cost()) {
        Ok(
            Granted {
                info: BucketInfo {
                    points: before.raised(query.cost()) as u16,
                    capacity: bucket.capacity as u16,
                    leak_per_second: bucket.leak_per_second as u8,
                },
                range: PageRange {
                    start: page_start(
                        records,
                        query.spec_page() as nat,
                        query.spec_page_size() as nat,
                    ) as usize,
                    end: page_end(
                        records,
                        query.spec_page() as nat,
                        query.spec_page_size() as nat,
                    ) as usize,
                },
            },
        )
    } else {
        Err(
            Error::NotEnoughCapacity {
                request: query.cost() as u16,
                points: before.points as u16,
                capacity: bucket.capacity as u16,
                leak_per_second: bucket.leak_per_second as u8,
            },
        )
    }
}

/// Whether noise is of the size that is drawn: at least one point, and at
/// most [`SPORADIC_POINTS_MAX`].
pub open spec fn is_noise(noise: Option<u16>) -> bool {
    noise matches Some(points) ==> 1 <= points <= SPORADIC_POINTS_MAX
}

/// The one owner of the server's bucket.
#[derive(Debug)]
pub struct AdmissionController {
    bucket: LeakyBucket,
}

impl View for AdmissionController {
    type V = BucketState;

    closed spec fn view(&self) -> BucketState {
        self.bucket@
    }
}

impl AdmissionController {
    /// A controller with an empty bucket of the default capacity and leak.
    pub fn new() -> (controller: Self)
        ensures
            controller@ == BucketState::fresh(
                0,
                MAX_BUCKET_CAPACITY as nat,
                LEAK_PER_SECOND as nat,
            ),
    {
        AdmissionController { bucket: LeakyBucket::empty(MAX_BUCKET_CAPACITY, LEAK_PER_SECOND) }
    }

    /// A controller with the given bucket.
    pub fn with_bucket(bucket: LeakyBucket) -> (controller: Self)
        ensures
            controller@ == bucket@,
    {
        AdmissionController { bucket }
    }

    /// The bucket of the controller.
    pub fn bucket(&self) -> (bucket: &LeakyBucket)
        ensures
            bucket@ == self@,
    {
        &self.bucket
    }

    /// Decides on a request that comes in `elapsed` after the bucket was
    /// last observed, with the given noise before it, for a query over
    /// `records` records; see [`answer_to_request`]. A request that is
    /// turned down leaves the bucket as the noise left it. The page size
    /// of the query must not be zero.
    pub fn handle_after(
        &mut self,
        elapsed: TimeSpan,
        noise: Option<u16>,
        query: &ServerQuery,
        records: usize,
    ) -> (answer: Result<Granted, Error>)
        requires
            query.spec_page_size() > 0,
        ensures
            final(self)@ == bucket_after_request(old(self)@, elapsed@, noise, query.cost()),
            answer == answer_to_request(old(self)@, elapsed@, noise, *query, records as nat),
            final(self)@.wf(),
    {
        let since_noise = match noise {
            Some(points) => {
                self.bucket.saturating_add_after(elapsed, points);
                TimeSpan::zero()
            },
            None => elapsed,
        };
        let cost = calc_query_cost(query);
        let capacity = self.bucket.capacity();
        let leak_per_second = self.bucket.leak_per_second();
        match self.bucket.add_after(since_noise, cost) {
            Ok(points) => Ok(
                Granted {
                    info: BucketInfo { points, capacity, leak_per_second },
                    range: select_page(records, query),
                },
            ),
            Err(MaxCapacityError(points)) => Err(
                Error::NotEnoughCapacity { request: cost, points, capacity, leak_per_second },
            ),
        }
    }

    /// Decides on a request, as [`handle_after`](Self::handle_after) does
    /// for the time that the clock shows to have gone by and for the noise
    /// that is drawn: in [`SPORADIC_POINTS_PERCENT`] requests of a hundred,
    /// one to [`SPORADIC_POINTS_MAX`] points.
    pub fn handle(&mut self, query: &ServerQuery, records: usize) -> (answer: Result<Granted, Error>)
        requires
            query.spec_page_size() > 0,
        ensures
            exists|elapsed: nat, noise: Option<u16>|
                {
                    &&& is_noise(noise)
                    &&& final(self)@ == #[trigger] bucket_after_request(
                        old(self)@,
                        elapsed,
                        noise,
                        query.cost(),
                    )
                    &&& answer == answer_to_request(old(self)@, elapsed, noise, *query, records as nat)
                },
            final(self)@.wf(),
    {
        let elapsed = self.bucket.tick();
        let noise = if chance(SPORADIC_POINTS_PERCENT, 100) {
            Some(draw_between(1, SPORADIC_POINTS_MAX))
        } else {
            None
        };
        let answer = self.handle_after(elapsed, noise, query, records);
        assert(self@ == bucket_after_request(old(self)@, elapsed@, noise, query.cost()));
        answer
    }
}

/// How many requests for `query` are granted when they come in one after
/// the other before anything has drained, each after the noise that
/// `noise` holds for it.
pub open spec fn grants(
    bucket: BucketState,
    query: ServerQuery,
    records: nat,
    noise: Seq<Option<u16>>,
) -> nat
    decreases noise.len(),
{
    if noise.len() == 0 {
        0
    } else {
        let granted: nat = if answer_to_request(bucket, 0, noise.first(), query, records) is Ok {
            1
        } else {
            0
        };
        granted + grants(
            bucket_after_request(bucket, 0, noise.first(), query.cost()),
            query,
            records,
            noise.drop_first(),
        )
    }
}

/// A request leaves the bucket well formed, with its capacity and leak as
/// they were and with no fewer points than it held when the request came
/// in, if nothing has drained by then; and a request that is granted has
/// put its cost on top of them.
pub proof fn lemma_request_keeps_bounds(
    bucket: BucketState,
    noise: Option<u16>,
    query: ServerQuery,
    records: nat,
)
    requires
        bucket.wf(),
        bucket.capacity < u16::MAX,
    ensures
        ({
            let after = bucket_after_request(bucket, 0, noise, query.cost());
            &&& after.wf()
            &&& after.capacity == bucket.capacity
            &&& after.leak_per_second == bucket.leak_per_second
            &&& after.points >= bucket.points
            &&& answer_to_request(bucket, 0, noise, query, records) is Ok ==> after.points
                >= bucket.points + query.cost()
            &&& answer_to_request(bucket, 0, noise, query, records) is Err ==> after
                == bucket_before_charge(bucket, 0, noise)
        }),
{
    lemma_observe_nothing_elapsed(bucket);
    if let Some(points) = noise {
        lemma_observe_nothing_elapsed(bucket.fill(points as nat));
    }
}

/// Of any number of requests that cost the same and come in before
/// anything has drained, with or without noise between them, no more are
/// granted than the free room of the bucket holds, and so no more than the
/// capacity divided by the cost.
///
/// This is stated of costs above zero and of capacities below the largest
/// 16-bit number, at which a sum is cut off before it is compared.
pub proof fn lemma_grants_fit_capacity(
    bucket: BucketState,
    query: ServerQuery,
    records: nat,
    noise: Seq<Option<u16>>,
)
    requires
        bucket.wf(),
        query.cost() > 0,
        bucket.capacity < u16::MAX,
    ensures
        grants(bucket, query, records, noise) * query.cost() <= bucket.capacity - bucket.points,
        grants(bucket, query, records, noise) <= bucket.capacity / query.cost(),
        grants(bucket, query, records, noise) <= noise.len(),
    decreases noise.len(),
{
    let cost = query.cost() as int;
    let count = grants(bucket, query, records, noise) as int;
    if noise.len() == 0 {
        assert(0 * cost == 0);
    } else {
        let after = bucket_after_request(bucket, 0, noise.first(), query.cost());
        lemma_request_keeps_bounds(bucket, noise.first(), query, records);
        lemma_grants_fit_capacity(after, query, records, noise.drop_first());
        let later = grants(after, query, records, noise.drop_first()) as int;
        assert((1 + later) * cost == cost + later * cost) by (nonlinear_arith);
    }
    assert(count <= bucket.capacity / (cost as nat)) by {
        vstd::arithmetic::div_mod::lemma_div_multiples_vanish(count, cost);
        vstd::arithmetic::div_mod::lemma_div_is_ordered(count * cost, bucket.capacity as int, cost);
    }
}

} // verus!
