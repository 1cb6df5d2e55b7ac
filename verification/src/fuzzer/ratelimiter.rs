use vstd::prelude::*;

verus! {

/// Whether the refill task adds a permit on a tick: only while fewer permits
/// are available than the current rate allows per second (at rate zero, which
/// means unlimited, no permits are needed and none are added).
pub open spec fn refill_adds(available: nat, rps: nat) -> bool {
    available < rps
}

/// Whether the refill task adds a permit now, given the permits available
/// and the rate in force.
pub fn should_add_permit(available_permits: usize, current_rps: usize) -> (b: bool)
    ensures
        b == refill_adds(available_permits as nat, current_rps as nat),
{
    available_permits < current_rps
}

/// The refill task's memory: the rate its interval was last set up for.
#[derive(Debug)]
pub struct RefillState {
    pub last_rps: usize,
}

impl RefillState {
    /// The refill state of a bucket created for `requests_per_second`.
    pub fn new(requests_per_second: usize) -> (s: RefillState)
        ensures
            s.last_rps == requests_per_second,
    {
        RefillState { last_rps: requests_per_second }
    }

    /// Compares the rate now in force with the one the interval was set up
    /// for: when it changed, remembers it and returns it, so that the interval
    /// is restarted for it.
    pub fn observe_rate(&mut self, current_rps: usize) -> (changed: Option<usize>)
        ensures
            changed == (if current_rps != old(self).last_rps {
                Some(current_rps)
            } else {
                None::<usize>
            }),
            final(self).last_rps == current_rps,
    {
        if current_rps != self.last_rps {
            self.last_rps = current_rps;
            Some(current_rps)
        } else {
            None
        }
    }
}

/// The rate after one decrease: one less. A decrease at zero neither panics
/// nor fails: the rate wraps around to the largest `usize`.
pub open spec fn decreased(rps: nat) -> nat {
    if rps > 0 {
        (rps - 1) as nat
    } else {
        usize::MAX as nat
    }
}

/// The rate per second after a decrease request.
pub fn decrease_rate(rps: usize) -> (r: usize)
    ensures
        r as nat == decreased(rps as nat),
{
    if rps > 0 {
        rps - 1
    } else {
        usize::MAX
    }
}

/// The permits a fresh bucket starts with: one, so that the first request
/// goes through at once and rate limiting holds from the beginning.
pub open spec fn initial_permits() -> nat {
    1
}

/// The number of permits a fresh bucket starts with.
pub fn initial_permit_count() -> (n: usize)
    ensures
        n as nat == initial_permits(),
{
    1
}

/// A rate of zero means no limit: requests go through without taking permits.
pub open spec fn unlimited(rps: nat) -> bool {
    rps == 0
}

/// Whether a request has to take a permit under the rate in force: always,
/// except when the rate is zero, which means unlimited.
pub fn needs_permit(rps: usize) -> (b: bool)
    ensures
        b == !unlimited(rps as nat),
{
    rps > 0
}

/// An event in the life of a token bucket.
pub enum BucketEvent {
    /// The refill interval elapsed.
    Tick,
    /// A request asks to go through (under a limit, it waits while no permit
    /// is available).
    Acquire,
    /// The rate is decreased by one.
    DecreaseRate,
}

/// The abstract state of a token bucket.
pub struct BucketState {
    pub available: nat,
    pub rps: nat,
    /// Permits handed out so far (requests let through under a limit).
    pub granted: nat,
    /// Requests let through while the rate was unlimited.
    pub unlimited_passes: nat,
    /// Ticks so far.
    pub ticks: nat,
}

/// A fresh bucket for `rps` requests per second.
pub open spec fn fresh_bucket(rps: nat) -> BucketState {
    BucketState { available: initial_permits(), rps, granted: 0, unlimited_passes: 0, ticks: 0 }
}

/// The bucket after one event.
pub open spec fn bucket_step(b: BucketState, e: BucketEvent) -> BucketState {
    match e {
        BucketEvent::Tick => BucketState {
            available: if refill_adds(b.available, b.rps) {
                b.available + 1
            } else {
                b.available
            },
            ticks: b.ticks + 1,
            ..b
        },
        BucketEvent::Acquire => if unlimited(b.rps) {
            BucketState { unlimited_passes: b.unlimited_passes + 1, ..b }
        } else if b.available > 0 {
            BucketState { available: (b.available - 1) as nat, granted: b.granted + 1, ..b }
        } else {
            b
        },
        BucketEvent::DecreaseRate => BucketState { rps: decreased(b.rps), ..b },
    }
}

/// The bucket after a sequence of events.
pub open spec fn bucket_run(b: BucketState, events: Seq<BucketEvent>) -> BucketState
    decreases events.len(),
{
    if events.len() == 0 {
        b
    } else {
        bucket_step(bucket_run(b, events.drop_last()), events.last())
    }
}

/// Rate limiting: however requests, ticks and rate changes interleave, a bucket
/// never hands out more permits than the one it starts with plus one per tick
/// (requests let through while the rate is unlimited take no permit).
pub proof fn law_permits_bounded_by_ticks(rps: nat, events: Seq<BucketEvent>)
    ensures
        bucket_run(fresh_bucket(rps), events).granted + bucket_run(fresh_bucket(rps), events).available
            <= initial_permits() + bucket_run(fresh_bucket(rps), events).ticks,
    decreases events.len(),
{
    if events.len() > 0 {
        law_permits_bounded_by_ticks(rps, events.drop_last());
    }
}

/// The larger of one and `rps`.
pub open spec fn permit_cap(rps: nat) -> nat {
    if rps > 1 {
        rps
    } else {
        1
    }
}

/// The number of rate decreases among the events.
pub open spec fn decrease_count(events: Seq<BucketEvent>) -> nat
    decreases events.len(),
{
    if events.len() == 0 {
        0
    } else {
        decrease_count(events.drop_last()) + if events.last() is DecreaseRate {
            1nat
        } else {
            0nat
        }
    }
}

/// There is no burst: however requests, ticks and rate changes interleave, the
/// available permits never exceed the larger of one and the current rate plus
/// the number of decreases so far (a decrease may leave behind permits that
/// the new, lower rate would not have added). Without decreases this is the
/// larger of one and the current rate.
pub proof fn law_available_capped(rps: nat, events: Seq<BucketEvent>)
    ensures
        bucket_run(fresh_bucket(rps), events).available <= permit_cap(
            bucket_run(fresh_bucket(rps), events).rps + decrease_count(events),
        ),
    decreases events.len(),
{
    if events.len() > 0 {
        law_available_capped(rps, events.drop_last());
    }
}

/// Each decrease lowers the rate by one, as long as the rate has not reached
/// zero; ticks and requests leave it as it is.
pub proof fn law_rate_after_decreases(rps: nat, events: Seq<BucketEvent>)
    requires
        decrease_count(events) <= rps,
    ensures
        bucket_run(fresh_bucket(rps), events).rps == rps - decrease_count(events),
    decreases events.len(),
{
    if events.len() > 0 {
        law_rate_after_decreases(rps, events.drop_last());
    }
}

/// No event of the sequence decreases the rate.
pub open spec fn no_decrease(events: Seq<BucketEvent>) -> bool {
    forall|i: int| 0 <= i < events.len() ==> !(#[trigger] events[i] is DecreaseRate)
}

/// While the rate is never decreased, the available permits never exceed the
/// larger of one and the current rate.
pub proof fn law_available_capped_by_current_rate(rps: nat, events: Seq<BucketEvent>)
    requires
        no_decrease(events),
    ensures
        bucket_run(fresh_bucket(rps), events).rps == rps,
        bucket_run(fresh_bucket(rps), events).available <= permit_cap(
            bucket_run(fresh_bucket(rps), events).rps,
        ),
    decreases events.len(),
{
    if events.len() > 0 {
        assert(no_decrease(events.drop_last())) by {
            assert forall|i: int| 0 <= i < events.drop_last().len() implies !(
            #[trigger] events.drop_last()[i] is DecreaseRate) by {
                assert(events.drop_last()[i] == events[i]);
            }
        }
        assert(!(events[events.len() - 1] is DecreaseRate));
        law_available_capped_by_current_rate(rps, events.drop_last());
    }
}

/// A tick never lifts the available permits above the current rate, unless
/// they already were above it.
pub proof fn law_refill_capped(b: BucketState)
    ensures
        bucket_step(b, BucketEvent::Tick).available <= if b.available > b.rps {
            b.available
        } else {
            b.rps
        },
{
}

/// While the rate is zero, every request goes through at once and takes no
/// permit.
pub proof fn law_zero_rate_is_unlimited(b: BucketState)
    requires
        b.rps == 0,
    ensures
        bucket_step(b, BucketEvent::Acquire).unlimited_passes == b.unlimited_passes + 1,
        bucket_step(b, BucketEvent::Acquire).available == b.available,
{
}

/// Only a rate of zero is unlimited: under any positive rate a request takes
/// a permit when one is available, and goes nowhere while none is.
pub proof fn law_positive_rate_is_limited(b: BucketState)
    requires
        b.rps > 0,
    ensures
        !unlimited(b.rps),
        b.available == 0 ==> bucket_step(b, BucketEvent::Acquire) == b,
        b.available > 0 ==> bucket_step(b, BucketEvent::Acquire).available == b.available - 1
            && bucket_step(b, BucketEvent::Acquire).granted == b.granted + 1
            && bucket_step(b, BucketEvent::Acquire).unlimited_passes == b.unlimited_passes,
{
}

} // verus!
