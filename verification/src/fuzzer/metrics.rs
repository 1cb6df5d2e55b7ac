use vstd::prelude::*;

verus! {

/// Streaming statistics, updated incrementally as each action's metrics arrive.
/// Durations are counted in nanoseconds.
#[derive(Debug, Clone, Copy)]
pub struct StreamingStats {
    pub total_count: usize,
    pub success_count: usize,
    pub failure_count: usize,
    /// Running sum of durations (for mean calculation)
    pub duration_sum: u128,
    /// Min/max durations seen so far
    pub min_duration: Option<u64>,
    pub max_duration: Option<u64>,
}

impl StreamingStats {
    /// The statistics are consistent: every action counted once as a success
    /// or a failure; no extremes before the first action and ordered extremes
    /// after it; and the sum lies between `total * min` and `total * max`.
    pub open spec fn well_formed(&self) -> bool {
        &&& self.success_count + self.failure_count == self.total_count
        &&& (self.total_count == 0) == (self.min_duration is None)
        &&& (self.total_count == 0) == (self.max_duration is None)
        &&& self.total_count == 0 ==> self.duration_sum == 0
        &&& self.total_count > 0 ==> {
            &&& self.min_duration.unwrap() <= self.max_duration.unwrap()
            &&& self.total_count * self.min_duration.unwrap() <= self.duration_sum
            &&& self.duration_sum <= self.total_count * self.max_duration.unwrap()
        }
    }

    /// Statistics before any action.
    pub fn new() -> (s: StreamingStats)
        ensures
            s.well_formed(),
            s.total_count == 0,
            s.success_count == 0,
            s.failure_count == 0,
            s.duration_sum == 0,
    {
        StreamingStats {
            total_count: 0,
            success_count: 0,
            failure_count: 0,
            duration_sum: 0,
            min_duration: None,
            max_duration: None,
        }
    }

    /// Adds one action that took `duration` nanoseconds and succeeded or not.
    pub fn record(&mut self, duration: u64, success: bool)
        requires
            old(self).well_formed(),
            old(self).total_count < usize::MAX,
            old(self).duration_sum + duration <= u128::MAX,
        ensures
            final(self).well_formed(),
            final(self).total_count == old(self).total_count + 1,
            final(self).success_count == old(self).success_count + if success { 1int } else { 0 },
            final(self).failure_count == old(self).failure_count + if success { 0int } else { 1 },
            final(self).duration_sum == old(self).duration_sum + duration,
            final(self).min_duration == Some(
                match old(self).min_duration {
                    Some(m) => if duration < m { duration } else { m },
                    None => duration,
                },
            ),
            final(self).max_duration == Some(
                match old(self).max_duration {
                    Some(m) => if duration > m { duration } else { m },
                    None => duration,
                },
            ),
    {
        let ghost t = self.total_count as int;
        let ghost s = self.duration_sum as int;
        let new_min = match self.min_duration {
            Some(m) => if duration < m { duration } else { m },
            None => duration,
        };
        let new_max = match self.max_duration {
            Some(m) => if duration > m { duration } else { m },
            None => duration,
        };
        proof {
            if t > 0 {
                let lo = self.min_duration.unwrap() as int;
                let hi = self.max_duration.unwrap() as int;
                let nlo = new_min as int;
                let nhi = new_max as int;
                let d = duration as int;
                assert((t + 1) * nlo <= s + d) by (nonlinear_arith)
                    requires
                        t * lo <= s,
                        nlo <= lo,
                        nlo <= d,
                        t >= 0,
                ;
                assert(s + d <= (t + 1) * nhi) by (nonlinear_arith)
                    requires
                        s <= t * hi,
                        hi <= nhi,
                        d <= nhi,
                        t >= 0,
                ;
            } else {
                let d = duration as int;
                assert((t + 1) * d == d) by (nonlinear_arith)
                    requires
                        t == 0,
                ;
            }
        }
        self.total_count = self.total_count + 1;
        if success {
            self.success_count = self.success_count + 1;
        } else {
            self.failure_count = self.failure_count + 1;
        }
        self.duration_sum = self.duration_sum + duration as u128;
        self.min_duration = Some(new_min);
        self.max_duration = Some(new_max);
    }

    /// The success rate as a fraction (numerator, denominator): all successes
    /// over all actions, and 1 (a full rate) before any action.
    pub fn success_ratio(&self) -> (r: (usize, usize))
        ensures
            self.total_count == 0 ==> r == (1usize, 1usize),
            self.total_count > 0 ==> r == (self.success_count, self.total_count),
    {
        if self.total_count == 0 {
            (1, 1)
        } else {
            (self.success_count, self.total_count)
        }
    }
}

impl Default for StreamingStats {
    /// Statistics before any action: all counts zero, no extremes.
    fn default() -> (s: StreamingStats)
        ensures
            s.well_formed(),
            s.total_count == 0,
            s.success_count == 0,
            s.failure_count == 0,
            s.duration_sum == 0,
    {
        StreamingStats::new()
    }
}

/// The mean duration of recorded actions lies between the shortest and the
/// longest one.
pub proof fn law_mean_between_extremes(s: StreamingStats)
    requires
        s.well_formed(),
        s.total_count > 0,
    ensures
        s.min_duration.unwrap() <= (s.duration_sum as int) / (s.total_count as int),
        (s.duration_sum as int) / (s.total_count as int) <= s.max_duration.unwrap(),
{
    let t = s.total_count as int;
    let lo = s.min_duration.unwrap() as int;
    let hi = s.max_duration.unwrap() as int;
    let sum = s.duration_sum as int;
    assert(lo <= sum / t) by (nonlinear_arith)
        requires
            t * lo <= sum,
            t > 0,
    ;
    assert(sum / t <= hi) by (nonlinear_arith)
        requires
            sum <= t * hi,
            t > 0,
    ;
}

} // verus!
