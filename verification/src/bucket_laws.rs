//! What holds of every leaky bucket, proved over its mathematical state.

use vstd::prelude::*;
use vstd::arithmetic::div_mod::{
    lemma_div_is_ordered,
    lemma_div_multiples_vanish,
    lemma_fundamental_div_mod,
    lemma_fundamental_div_mod_converse,
    lemma_mod_bound,
};
use vstd::arithmetic::mul::{lemma_mul_inequality, lemma_mul_is_distributive_add};
use crate::leaky_bucket::{BucketState, MaxCapacityError};
use crate::time_span::NANOS_PER_SEC;

verus! {

/// One call that changes a bucket, with the time that went by before it.
pub enum BucketCall {
    /// The points are read.
    Points { elapsed: nat },
    /// Points are charged, if they fit.
    Add { elapsed: nat, points: nat },
    /// Points are added as far as they fit.
    SaturatingAdd { elapsed: nat, points: nat },
}

impl BucketState {
    /// The state after one call.
    pub open spec fn after_call(self, call: BucketCall) -> BucketState {
        match call {
            BucketCall::Points { elapsed } => self.observe(elapsed),
            BucketCall::Add { elapsed, points } => self.observe(elapsed).charge(points),
            BucketCall::SaturatingAdd { elapsed, points } => self.observe(elapsed).fill(points),
        }
    }

    /// The state after a sequence of calls, made in order.
    pub open spec fn after_calls(self, calls: Seq<BucketCall>) -> BucketState
        decreases calls.len(),
    {
        if calls.len() == 0 {
            self
        } else {
            self.after_calls(calls.drop_last()).after_call(calls.last())
        }
    }

    /// How many of `requests` charges of `cost` each are granted when they
    /// follow one another with no time between them.
    pub open spec fn granted(self, cost: nat, requests: nat) -> nat
        decreases requests,
    {
        if requests == 0 {
            0
        } else if self.observe(0).affords(cost) {
            1 + self.observe(0).charge(cost).granted(cost, (requests - 1) as nat)
        } else {
            self.observe(0).charge(cost).granted(cost, (requests - 1) as nat)
        }
    }
}

/// One call keeps a bucket well formed and its parameters as they are.
pub proof fn lemma_call_keeps_bounds(state: BucketState, call: BucketCall)
    requires
        state.wf(),
    ensures
        state.after_call(call).wf(),
        state.after_call(call).capacity == state.capacity,
        state.after_call(call).leak_per_second == state.leak_per_second,
{
    let elapsed = match call {
        BucketCall::Points { elapsed } => elapsed,
        BucketCall::Add { elapsed, .. } => elapsed,
        BucketCall::SaturatingAdd { elapsed, .. } => elapsed,
    };
    lemma_mod_bound((state.remainder_nanos + elapsed) as int, NANOS_PER_SEC as int);
}

/// After any sequence of reads, charges and forced additions, whatever the
/// times between them, the points of a bucket lie between zero and its
/// capacity.
pub proof fn lemma_points_within_capacity(state: BucketState, calls: Seq<BucketCall>)
    requires
        state.wf(),
    ensures
        state.after_calls(calls).wf(),
        state.after_calls(calls).capacity == state.capacity,
        state.after_calls(calls).leak_per_second == state.leak_per_second,
        0 <= state.after_calls(calls).points <= state.capacity,
    decreases calls.len(),
{
    if calls.len() > 0 {
        lemma_points_within_capacity(state, calls.drop_last());
        lemma_call_keeps_bounds(state.after_calls(calls.drop_last()), calls.last());
    }
}

/// A bucket observed again with no time gone by is the same bucket: two
/// reads without time between them report the same points.
pub proof fn lemma_observe_nothing_elapsed(state: BucketState)
    requires
        state.wf(),
    ensures
        state.observe(0) == state,
        forall|elapsed: nat| #[trigger]
            state.observe(elapsed).observe(0).points == state.observe(elapsed).points,
{
    lemma_carried_time_is_no_second(state);
    assert forall|elapsed: nat| #[trigger]
        state.observe(elapsed).observe(0).points == state.observe(elapsed).points by {
        lemma_call_keeps_bounds(state, BucketCall::Points { elapsed });
        lemma_carried_time_is_no_second(state.observe(elapsed));
    }
}

/// The time that a bucket carries holds no whole second, so that nothing
/// drains while no time goes by.
proof fn lemma_carried_time_is_no_second(state: BucketState)
    requires
        state.wf(),
    ensures
        state.whole_seconds(0) == 0,
        state.leaked(0) == 0,
        state.observe(0) == state,
{
    lemma_fundamental_div_mod_converse(
        state.remainder_nanos as int,
        NANOS_PER_SEC as int,
        0,
        state.remainder_nanos as int,
    );
    assert(state.leak_per_second * 0 == 0);
}

/// A charge that does not fit leaves the bucket as it was, reports the
/// points it held, and a read right after it finds those same points.
pub proof fn lemma_refused_charge_changes_nothing(state: BucketState, cost: nat)
    requires
        state.wf(),
        !state.affords(cost),
    ensures
        state.charge(cost) == state,
        state.charge_outcome(cost) == Err::<u16, MaxCapacityError>(
            MaxCapacityError(state.points as u16),
        ),
        state.charge(cost).observe(0).points == state.points,
{
    lemma_carried_time_is_no_second(state);
}

/// Two observations in a row see what one observation after both times
/// sees: no part of a second is lost between them.
pub proof fn lemma_observe_twice(state: BucketState, first: nat, second: nat)
    requires
        state.wf(),
    ensures
        state.observe(first).observe(second) == state.observe(first + second),
{
    let unit = NANOS_PER_SEC as int;
    let rate = state.leak_per_second as int;
    let start = (state.remainder_nanos + first) as int;
    let between = state.observe(first);
    let seconds_first = start / unit;
    let carried = start % unit;
    let seconds_second = (carried + second) / unit;
    let rest = (carried + second) % unit;
    lemma_fundamental_div_mod(start, unit);
    lemma_fundamental_div_mod(carried + second, unit);
    lemma_mod_bound(carried + second, unit);
    lemma_mod_bound(start, unit);
    assert(unit * (seconds_first + seconds_second) == unit * seconds_first + unit
        * seconds_second) by {
        lemma_mul_is_distributive_add(unit, seconds_first, seconds_second);
    }
    lemma_fundamental_div_mod_converse(
        start + second,
        unit,
        seconds_first + seconds_second,
        rest,
    );
    assert(state.whole_seconds(first + second) == seconds_first + seconds_second);
    assert(rate * (seconds_first + seconds_second) == rate * seconds_first + rate
        * seconds_second) by {
        lemma_mul_is_distributive_add(rate, seconds_first, seconds_second);
    }
    assert(between.whole_seconds(second) == seconds_second);
    assert(state.leaked(first + second) == state.leaked(first) + between.leaked(second));
}

/// The longer the time, the fewer the points: draining never adds any.
pub proof fn lemma_decay_is_monotonic(state: BucketState, shorter: nat, longer: nat)
    requires
        state.wf(),
        shorter <= longer,
    ensures
        state.observe(longer).points <= state.observe(shorter).points,
        state.observe(shorter).points <= state.points,
{
    lemma_observe_twice(state, shorter, (longer - shorter) as nat);
}

/// A bucket that was made full, with capacity `capacity` and a leak of
/// `leak_per_second`, holds after `seconds` whole seconds exactly the
/// capacity less the leak times the seconds, and nothing once that would be
/// less than nothing.
pub proof fn lemma_decay_is_exact(capacity: nat, leak_per_second: nat, seconds: nat)
    requires
        capacity <= u16::MAX,
        leak_per_second <= u8::MAX,
    ensures
        BucketState::fresh(capacity, capacity, leak_per_second).observe(
            seconds * (NANOS_PER_SEC as nat),
        ).points == if leak_per_second * seconds >= capacity {
            0
        } else {
            capacity - leak_per_second * seconds
        },
{
    let state = BucketState::fresh(capacity, capacity, leak_per_second);
    let elapsed = seconds * (NANOS_PER_SEC as nat);
    lemma_fundamental_div_mod_converse(
        elapsed as int,
        NANOS_PER_SEC as int,
        seconds as int,
        0,
    );
    assert(state.whole_seconds(elapsed) == seconds);
}

/// The wait that a bucket computes for a cost is nothing where the cost
/// fits already; and once that wait has gone by, with no other charge in
/// between, a charge of the cost is granted.
///
/// This is stated of costs that the capacity can hold at all, and of
/// buckets that drain: no wait makes any other cost affordable.
pub proof fn lemma_wait_makes_affordable(state: BucketState, cost: nat)
    requires
        state.wf(),
        state.leak_per_second > 0,
        cost <= state.capacity,
    ensures
        cost <= state.available() ==> state.wait_nanos(cost) == 0,
        state.observe(state.wait_nanos(cost)).affords(cost),
        state.observe(state.wait_nanos(cost)).charge_outcome(cost) is Ok,
{
    lemma_carried_time_is_no_second(state);
    if cost > state.available() {
        let unit = NANOS_PER_SEC as int;
        let rate = state.leak_per_second as int;
        let missing = (cost - state.available()) as int;
        let seconds = state.seconds_to_afford(cost) as int;
        lemma_fundamental_div_mod(missing, rate);
        lemma_mod_bound(missing, rate);
        assert(rate * seconds >= missing) by {
            if missing % rate != 0 {
                lemma_mul_is_distributive_add(rate, missing / rate, 1);
            }
        }
        assert(seconds >= 1) by (nonlinear_arith)
            requires
                rate * seconds >= missing,
                missing >= 1,
                rate >= 1,
        ;
        assert(unit * seconds >= unit) by {
            lemma_mul_inequality(1, seconds, unit);
        }
        let wait = state.wait_nanos(cost);
        assert(wait == seconds * unit - state.remainder_nanos);
        lemma_fundamental_div_mod_converse(seconds * unit, unit, seconds, 0);
        assert(state.whole_seconds(wait) == seconds);
        assert(state.leaked(wait) >= missing);
    }
}

/// Of any number of requests that cost the same and follow one another
/// before anything has drained, no more are granted than the free room of
/// the bucket holds, and so no more than the capacity divided by the cost.
///
/// This is stated of costs above zero and of capacities below the largest
/// 16-bit number, at which a sum is cut off before it is compared.
pub proof fn lemma_grants_bounded_by_capacity(state: BucketState, cost: nat, requests: nat)
    requires
        state.wf(),
        cost > 0,
        state.capacity < u16::MAX,
    ensures
        state.granted(cost, requests) * cost <= state.capacity - state.points,
        state.granted(cost, requests) <= state.capacity / cost,
        state.granted(cost, requests) <= requests,
    decreases requests,
{
    lemma_carried_time_is_no_second(state);
    if requests > 0 {
        let next = state.observe(0).charge(cost);
        lemma_grants_bounded_by_capacity(next, cost, (requests - 1) as nat);
        let later = next.granted(cost, (requests - 1) as nat) as int;
        if state.affords(cost) {
            assert((1 + later) * cost == cost + later * cost) by {
                lemma_mul_is_distributive_add(cost as int, 1, later);
                vstd::arithmetic::mul::lemma_mul_is_commutative(cost as int, 1 + later);
                vstd::arithmetic::mul::lemma_mul_is_commutative(cost as int, later);
            }
        }
    } else {
        assert(0 * cost == 0);
    }
    let count = state.granted(cost, requests) as int;
    lemma_div_multiples_vanish(count, cost as int);
    vstd::arithmetic::mul::lemma_mul_is_commutative(count, cost as int);
    lemma_div_is_ordered(count * cost, state.capacity as int, cost as int);
}

} // verus!
