//! A simple leaky bucket: a counter of points that drains at a fixed rate
//! per whole second and refuses to be filled above its capacity.

use vstd::prelude::*;
use crate::clock::{clock_now, elapsed_between};
use crate::decimal::{decimal_digits, push_decimal};
pub use crate::headers::FromHeaderError;
use crate::time_span::{TimeSpan, NANOS_PER_SEC};
use tokio::time::Instant;

verus! {

/// What a leaky bucket is, mathematically: its two fixed parameters, the
/// points it held when it was last observed, and the part of a second that
/// had gone by at that observation without draining anything yet.
pub struct BucketState {
    /// The most points the bucket can hold.
    pub capacity: nat,
    /// The points that drain with every whole second.
    pub leak_per_second: nat,
    /// The points held at the last observation.
    pub points: nat,
    /// The nanoseconds carried over from the last observation.
    pub remainder_nanos: nat,
}

impl BucketState {
    /// The state of a bucket that was just made.
    pub open spec fn fresh(points: nat, capacity: nat, leak_per_second: nat) -> BucketState {
        BucketState { capacity, leak_per_second, points, remainder_nanos: 0 }
    }

    /// The points fit the capacity, the carried time is less than a second,
    /// and the parameters fit their machine types.
    pub open spec fn wf(self) -> bool {
        &&& self.points <= self.capacity
        &&& self.capacity <= u16::MAX
        &&& self.leak_per_second <= u8::MAX
        &&& self.remainder_nanos < NANOS_PER_SEC
    }

    /// The whole seconds that are complete `elapsed` nanoseconds after the
    /// last observation, counting the carried time.
    pub open spec fn whole_seconds(self, elapsed: nat) -> nat {
        (self.remainder_nanos + elapsed) / (NANOS_PER_SEC as nat)
    }

    /// The points that drain in `elapsed` nanoseconds.
    pub open spec fn leaked(self, elapsed: nat) -> nat {
        self.leak_per_second * self.whole_seconds(elapsed)
    }

    /// The state as observed `elapsed` nanoseconds after the last
    /// observation: the points drained (never below zero), and what is left
    /// of the time after the whole seconds carried forward.
    pub open spec fn observe(self, elapsed: nat) -> BucketState {
        BucketState {
            points: if self.leaked(elapsed) >= self.points {
                0
            } else {
                (self.points - self.leaked(elapsed)) as nat
            },
            remainder_nanos: (self.remainder_nanos + elapsed) % (NANOS_PER_SEC as nat),
            ..self
        }
    }

    /// The points plus `amount`, held at the largest 16-bit number.
    pub open spec fn raised(self, amount: nat) -> nat {
        if self.points + amount > u16::MAX {
            u16::MAX as nat
        } else {
            self.points + amount
        }
    }

    /// Whether `cost` more points fit.
    pub open spec fn affords(self, cost: nat) -> bool {
        self.raised(cost) <= self.capacity
    }

    /// The state after a charge of `cost`: raised if the cost fits, and
    /// untouched if it does not.
    pub open spec fn charge(self, cost: nat) -> BucketState {
        if self.affords(cost) {
            BucketState { points: self.raised(cost), ..self }
        } else {
            self
        }
    }

    /// What a charge of `cost` reports: the new points if the cost fits,
    /// and the points as they were if it does not.
    pub open spec fn charge_outcome(self, cost: nat) -> Result<u16, MaxCapacityError> {
        if self.affords(cost) {
            Ok(self.raised(cost) as u16)
        } else {
            Err(MaxCapacityError(self.points as u16))
        }
    }

    /// The state after `amount` is added as far as the capacity allows.
    pub open spec fn fill(self, amount: nat) -> BucketState {
        BucketState {
            points: if self.points + amount > self.capacity {
                self.capacity
            } else {
                self.points + amount
            },
            ..self
        }
    }

    /// The points that still fit.
    pub open spec fn available(self) -> nat {
        (self.capacity - self.points) as nat
    }

    /// The whole seconds of draining that free enough room for `cost`:
    /// the missing points divided by the leak, rounded up.
    pub open spec fn seconds_to_afford(self, cost: nat) -> nat {
        if cost <= self.available() {
            0
        } else {
            let missing = (cost - self.available()) as nat;
            let leak = self.leak_per_second;
            if missing % leak == 0 {
                missing / leak
            } else {
                missing / leak + 1
            }
        }
    }

    /// The nanoseconds to wait before `cost` is affordable: nothing if it
    /// is affordable already, else the whole seconds of
    /// [`seconds_to_afford`](Self::seconds_to_afford) less the time carried
    /// already, and never less than nothing.
    pub open spec fn wait_nanos(self, cost: nat) -> nat {
        let total = self.seconds_to_afford(cost) * (NANOS_PER_SEC as nat);
        if cost <= self.available() || total <= self.remainder_nanos {
            0
        } else {
            (total - self.remainder_nanos) as nat
        }
    }

    /// Whether a wait can be computed for `cost`: the bucket drains, or
    /// there is nothing to wait for.
    pub open spec fn can_wait_for(self, cost: nat) -> bool {
        self.leak_per_second > 0 || cost <= self.available()
    }
}

/// The moment of the last observation, and the time that had gone by since
/// the start of the second it fell in, so that it is not lost to the next
/// observation.
#[derive(Debug)]
struct LastTime {
    instant: Instant,
    remainder_nanos: u32,
}

/// A simple leaky bucket.
#[derive(Debug)]
pub struct LeakyBucket {
    capacity: u16,
    leak_per_second: u8,
    last_points: u16,
    last_time: LastTime,
}

/// An error representing an operation that would make the points exceed the capacity.
#[derive(Clone, Copy, Debug, Default, PartialEq, Eq, Structural)]
pub struct MaxCapacityError(
    /// Points in the bucket.
    pub u16,
);

impl MaxCapacityError {
    /// The words that describe the error: that nothing can be added to a
    /// bucket with these points, which are written in base ten.
    pub open spec fn text(self) -> Seq<char> {
        "Cannot add to leaky bucket with "@ + decimal_digits(self.0 as nat)
            + " points, capacity exceeded"@
    }

    /// Describes the error in words, with the points that the bucket held.
    pub fn message(&self) -> (message: String)
        ensures
            message@ == self.text(),
    {
        let mut message = String::from_str("Cannot add to leaky bucket with ");
        push_decimal(&mut message, self.0);
        message.append(" points, capacity exceeded");
        message
    }
}

/// An error for a bucket that was to be made with more points than it can
/// hold.
#[derive(Clone, Copy, Debug, PartialEq, Eq, Structural)]
pub struct InvalidSeed {
    /// The points that the bucket was to hold.
    pub points: u16,
    /// The capacity that the bucket was to have.
    pub capacity: u16,
}

impl View for LeakyBucket {
    type V = BucketState;

    closed spec fn view(&self) -> BucketState {
        BucketState {
            capacity: self.capacity as nat,
            leak_per_second: self.leak_per_second as nat,
            points: self.last_points as nat,
            remainder_nanos: self.last_time.remainder_nanos as nat,
        }
    }
}

impl LeakyBucket {
    /// Every bucket is well formed, wherever it came from.
    #[verifier::type_invariant]
    pub open spec fn inv(self) -> bool {
        self@.wf()
    }

    /// Creates an empty leaky bucket.
    pub fn empty(max_capacity: u16, leak_per_second: u8) -> (bucket: Self)
        ensures
            bucket@ == BucketState::fresh(0, max_capacity as nat, leak_per_second as nat),
            bucket@.wf(),
    {
        Self::with_points(0, max_capacity, leak_per_second)
    }

    /// Creates a leaky bucket given the number of stored _points_, which
    /// must not exceed `capacity`.
    pub fn with_points(points: u16, capacity: u16, leak_per_second: u8) -> (bucket: Self)
        requires
            points <= capacity,
        ensures
            bucket@ == BucketState::fresh(points as nat, capacity as nat, leak_per_second as nat),
            bucket@.wf(),
    {
        Self {
            capacity,
            leak_per_second,
            last_points: points,
            last_time: LastTime { instant: clock_now(), remainder_nanos: 0 },
        }
    }

    /// Creates a leaky bucket given the number of stored _points_, or says
    /// that they exceed `capacity`.
    pub fn try_with_points(points: u16, capacity: u16, leak_per_second: u8) -> (result: Result<
        Self,
        InvalidSeed,
    >)
        ensures
            match result {
                Ok(bucket) => {
                    &&& points <= capacity
                    &&& bucket@ == BucketState::fresh(
                        points as nat,
                        capacity as nat,
                        leak_per_second as nat,
                    )
                    &&& bucket@.wf()
                },
                Err(error) => points > capacity && error == (InvalidSeed { points, capacity }),
            },
    {
        if points <= capacity {
            Ok(Self::with_points(points, capacity, leak_per_second))
        } else {
            Err(InvalidSeed { points, capacity })
        }
    }

    /// Returns the capacity of the bucket.
    pub fn capacity(&self) -> (capacity: u16)
        ensures
            capacity == self@.capacity,
    {
        self.capacity
    }

    /// Returns the leak per second of the bucket.
    pub fn leak_per_second(&self) -> (leak: u8)
        ensures
            leak == self@.leak_per_second,
    {
        self.leak_per_second
    }

    /// Returns the points stored at the last observation, without observing
    /// the bucket anew.
    pub fn last_points(&self) -> (points: u16)
        ensures
            points == self@.points,
            self@.wf(),
    {
        proof {
            use_type_invariant(self);
        }
        self.last_points
    }

    /// Returns the nanoseconds carried over from the last observation.
    pub fn remainder_nanos(&self) -> (nanos: u32)
        ensures
            nanos == self@.remainder_nanos,
            self@.wf(),
    {
        proof {
            use_type_invariant(self);
        }
        self.last_time.remainder_nanos
    }

    /// Moves the moment of the last observation to now, and returns the time
    /// that went by since the one before. The points are not touched.
    pub(crate) fn tick(&mut self) -> (elapsed: TimeSpan)
        ensures
            final(self)@ == old(self)@,
            final(self)@.wf(),
    {
        proof {
            use_type_invariant(&*self);
        }
        let now = clock_now();
        let elapsed = elapsed_between(&now, &self.last_time.instant);
        self.last_time.instant = now;
        elapsed
    }

    /// Returns the points in the bucket `elapsed` after its last
    /// observation, and makes that the last observation.
    ///
    /// The caller says how much time has gone by: the clock is not read,
    /// and the moment from which [`points`](Self::points) measures stays
    /// where it was. The same holds of the other methods that take the
    /// time gone by.
    pub fn points_after(&mut self, elapsed: TimeSpan) -> (points: u16)
        ensures
            final(self)@ == old(self)@.observe(elapsed@),
            points == final(self)@.points,
            final(self)@.wf(),
    {
        proof {
            use_type_invariant(&*self);
        }
        let sub: u64 = elapsed.nanos as u64 + self.last_time.remainder_nanos as u64;
        let carry: u64 = sub / (NANOS_PER_SEC as u64);
        let remainder: u32 = (sub % (NANOS_PER_SEC as u64)) as u32;
        let whole: u64 = elapsed.secs.saturating_add(carry);
        let delta_secs: u16 = if whole > u16::MAX as u64 {
            u16::MAX
        } else {
            whole as u16
        };
        let leak: u16 = match delta_secs.checked_mul(self.leak_per_second as u16) {
            Some(leak) => leak,
            None => u16::MAX,
        };
        let points: u16 = self.last_points.saturating_sub(leak);
        proof {
            lemma_drain(
                self@,
                elapsed.secs as nat,
                elapsed.nanos as nat,
                delta_secs as nat,
                leak as nat,
            );
        }
        self.last_points = points;
        self.last_time.remainder_nanos = remainder;
        points
    }

    /// Returns the current points stored in the bucket.
    ///
    /// The internal state is updated depending on the last time the leaky
    /// bucket was observed: the result is that of
    /// [`points_after`](Self::points_after) for the time that the clock
    /// shows to have gone by.
    pub fn points(&mut self) -> (points: u16)
        ensures
            exists|elapsed: nat| final(self)@ == #[trigger] old(self)@.observe(elapsed),
            points == final(self)@.points,
            final(self)@.wf(),
    {
        let elapsed = self.tick();
        self.points_after(elapsed)
    }

    /// Adds some points to the bucket as it is `elapsed` after its last
    /// observation.
    ///
    /// Returns the new amount of points in the bucket, or an error if the
    /// capacity would be exceeded: the points are then left as the
    /// observation found them, and the error carries them. A sum beyond the
    /// largest 16-bit number counts as that number.
    pub fn add_after(&mut self, elapsed: TimeSpan, points: u16) -> (result: Result<
        u16,
        MaxCapacityError,
    >)
        ensures
            final(self)@ == old(self)@.observe(elapsed@).charge(points as nat),
            result == old(self)@.observe(elapsed@).charge_outcome(points as nat),
            final(self)@.wf(),
    {
        let cur_points = self.points_after(elapsed);
        let points = cur_points.saturating_add(points);
        if points <= self.capacity {
            self.last_points = points;
            Ok(points)
        } else {
            Err(MaxCapacityError(cur_points))
        }
    }

    /// Adds some points to the bucket.
    ///
    /// Returns the new amount of points in the bucket or an error if the
    /// capacity would be exceeded, as [`add_after`](Self::add_after) does
    /// for the time that the clock shows to have gone by.
    pub fn add(&mut self, points: u16) -> (result: Result<u16, MaxCapacityError>)
        ensures
            exists|elapsed: nat|
                {
                    let seen = #[trigger] old(self)@.observe(elapsed);
                    &&& final(self)@ == seen.charge(points as nat)
                    &&& result == seen.charge_outcome(points as nat)
                },
            final(self)@.wf(),
    {
        let elapsed = self.tick();
        self.add_after(elapsed, points)
    }

    /// Adds some points to the bucket as it is `elapsed` after its last
    /// observation, saturating to its capacity, and returns the points it
    /// then holds.
    ///
    /// This always succeeds, because not all points are necessarily added.
    pub fn saturating_add_after(&mut self, elapsed: TimeSpan, points: u16) -> (total: u16)
        ensures
            final(self)@ == old(self)@.observe(elapsed@).fill(points as nat),
            total == final(self)@.points,
            final(self)@.wf(),
    {
        let raised = self.points_after(elapsed).saturating_add(points);
        let points = if raised < self.capacity {
            raised
        } else {
            self.capacity
        };
        self.last_points = points;
        points
    }

    /// Adds some points to the bucket, saturating to its capacity, as
    /// [`saturating_add_after`](Self::saturating_add_after) does for the
    /// time that the clock shows to have gone by.
    ///
    /// This is useful to add points to the bucket _artificially_, but it
    /// should not be used for an operation that must fail if the bucket is
    /// too full.
    pub fn saturating_add(&mut self, points: u16) -> (total: u16)
        ensures
            exists|elapsed: nat|
                final(self)@ == (#[trigger] old(self)@.observe(elapsed)).fill(points as nat),
            total == final(self)@.points,
            final(self)@.wf(),
    {
        let elapsed = self.tick();
        self.saturating_add_after(elapsed, points)
    }

    /// Returns the number of points that still fit `elapsed` after the last
    /// observation, and makes that the last observation.
    pub fn available_after(&mut self, elapsed: TimeSpan) -> (available: u16)
        ensures
            final(self)@ == old(self)@.observe(elapsed@),
            available == final(self)@.available(),
            final(self)@.wf(),
    {
        self.capacity - self.points_after(elapsed)
    }

    /// Returns the number of available points, as
    /// [`available_after`](Self::available_after) does for the time that
    /// the clock shows to have gone by.
    pub fn available(&mut self) -> (available: u16)
        ensures
            exists|elapsed: nat| final(self)@ == #[trigger] old(self)@.observe(elapsed),
            available == final(self)@.available(),
            final(self)@.wf(),
    {
        let elapsed = self.tick();
        self.available_after(elapsed)
    }

    /// Calculates the waiting time in order to add some points to the
    /// bucket as it is `elapsed` after its last observation, and makes that
    /// the last observation.
    ///
    /// The wait is nothing if the points fit already. Else it is the whole
    /// seconds that drain enough, less the part of a second that the bucket
    /// has carried since its last whole second. A bucket that does not
    /// drain has no such wait: it may be asked only for points that fit.
    pub fn wait_time_to_use_after(&mut self, elapsed: TimeSpan, points: u16) -> (wait: TimeSpan)
        requires
            old(self)@.can_wait_for(points as nat),
        ensures
            final(self)@ == old(self)@.observe(elapsed@),
            wait@ == final(self)@.wait_nanos(points as nat),
            wait == TimeSpan::of_nanos(final(self)@.wait_nanos(points as nat)),
            final(self)@.wf(),
    {
        proof {
            use_type_invariant(&*self);
            if self@.leak_per_second == 0 {
                lemma_no_leak_no_decay(self@, elapsed@);
            }
        }
        let cur_points = self.points_after(elapsed);
        let available = self.capacity - cur_points;
        if points <= available {
            let wait = TimeSpan::zero();
            proof {
                wait.lemma_normal();
            }
            return wait;
        }
        let to_restore: u16 = points - available;
        let rate: u16 = self.leak_per_second as u16;
        let whole: u16 = to_restore / rate;
        let seconds_needed: u32 = if to_restore % rate != 0 {
            whole as u32 + 1
        } else {
            whole as u32
        };
        let carried = self.last_time.remainder_nanos;
        proof {
            use_type_invariant(&*self);
            assert(seconds_needed == self@.seconds_to_afford(points as nat));
            assert(seconds_needed >= 1) by (nonlinear_arith)
                requires
                    to_restore >= 1,
                    rate >= 1,
                    whole == to_restore / rate,
                    seconds_needed == if to_restore % rate != 0 {
                        whole + 1
                    } else {
                        whole as int
                    },
            ;
        }
        let wait = if carried == 0 {
            TimeSpan { secs: seconds_needed as u64, nanos: 0 }
        } else {
            TimeSpan { secs: (seconds_needed - 1) as u64, nanos: NANOS_PER_SEC - carried }
        };
        proof {
            wait.lemma_normal();
        }
        wait
    }

    /// Calculates the waiting time in order to add some points to the
    /// bucket, as [`wait_time_to_use_after`](Self::wait_time_to_use_after)
    /// does for the time that the clock shows to have gone by.
    ///
    /// This can be useful to evaluate when it is possible to perform a
    /// request to a service using the leaky bucket algorithm. In this way a
    /// failing request can be avoided using a likely estimation from local
    /// data.
    pub fn wait_time_to_use(&mut self, points: u16) -> (wait: TimeSpan)
        requires
            old(self)@.can_wait_for(points as nat),
        ensures
            exists|elapsed: nat| final(self)@ == #[trigger] old(self)@.observe(elapsed),
            wait@ == final(self)@.wait_nanos(points as nat),
            wait == TimeSpan::of_nanos(final(self)@.wait_nanos(points as nat)),
            final(self)@.wf(),
    {
        let elapsed = self.tick();
        self.wait_time_to_use_after(elapsed, points)
    }
}

/// A bucket that does not drain holds after any time what it held before.
pub proof fn lemma_no_leak_no_decay(state: BucketState, elapsed: nat)
    requires
        state.leak_per_second == 0,
    ensures
        state.observe(elapsed).points == state.points,
{
    let whole = state.whole_seconds(elapsed);
    assert(state.leak_per_second * whole == 0) by (nonlinear_arith)
        requires
            state.leak_per_second == 0,
    ;
}

/// What the machine arithmetic of an observation computes is what
/// [`BucketState::observe`] says: the seconds are counted no further than
/// `delta_secs`, the leak no further than `leak`, and neither cut changes
/// the points that are left.
proof fn lemma_drain(state: BucketState, secs: nat, nanos: nat, delta_secs: nat, leak: nat)
    requires
        state.wf(),
        secs <= u64::MAX,
        nanos <= u32::MAX,
        ({
            let whole = secs + (nanos + state.remainder_nanos) / (NANOS_PER_SEC as nat);
            delta_secs == if whole > u16::MAX { u16::MAX as nat } else { whole }
        }),
        leak == if delta_secs * state.leak_per_second > u16::MAX {
            u16::MAX as nat
        } else {
            delta_secs * state.leak_per_second
        },
    ensures
        ({
            let elapsed = secs * (NANOS_PER_SEC as nat) + nanos;
            let after = state.observe(elapsed);
            &&& after.points == if state.points >= leak { state.points - leak } else { 0 }
            &&& after.remainder_nanos == (nanos + state.remainder_nanos) % (NANOS_PER_SEC as nat)
            &&& after.wf()
        }),
{
    let unit = NANOS_PER_SEC as nat;
    let sub = nanos + state.remainder_nanos;
    let elapsed = secs * unit + nanos;
    let whole = secs + sub / unit;
    assert(state.remainder_nanos + elapsed == secs * unit + sub);
    assert((secs * unit + sub) / unit == secs + sub / unit && (secs * unit + sub) % unit == sub
        % unit) by {
        vstd::arithmetic::div_mod::lemma_fundamental_div_mod_converse(
            (secs * unit + sub) as int,
            unit as int,
            (secs + sub / unit) as int,
            (sub % unit) as int,
        );
    }
    assert(state.whole_seconds(elapsed) == whole);
    let rate = state.leak_per_second;
    if rate == 0 {
        assert(rate * whole == 0) by (nonlinear_arith)
            requires
                rate == 0,
        ;
        assert(delta_secs * rate == 0) by (nonlinear_arith)
            requires
                rate == 0,
        ;
    } else if whole > u16::MAX {
        assert(rate * whole > u16::MAX) by (nonlinear_arith)
            requires
                rate >= 1,
                whole > u16::MAX,
        ;
        assert(delta_secs * rate >= u16::MAX) by (nonlinear_arith)
            requires
                rate >= 1,
                delta_secs == u16::MAX,
        ;
    } else {
        assert(delta_secs * rate == rate * whole) by (nonlinear_arith)
            requires
                delta_secs == whole,
        ;
    }
}

} // verus!
