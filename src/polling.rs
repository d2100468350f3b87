//! Fixed-interval polling bounded by a deadline.
use vstd::prelude::*;

verus! {

/// A poll that checks every `interval_ms` until `timeout_ms` has passed.
#[derive(Clone, Copy, Debug, PartialEq, Eq, Structural)]
pub struct PollBudget {
    pub timeout_ms: u64,
    pub interval_ms: u64,
}

/// A poll checks again while the elapsed time has not passed the deadline.
pub open spec fn poll_again(elapsed_ms: int, timeout_ms: int) -> bool {
    elapsed_ms <= timeout_ms
}

/// How a simulated poll ended.
#[derive(Clone, Copy, Debug, PartialEq, Eq, Structural)]
pub struct PollOutcome {
    pub found: bool,
    pub checks: u64,
    pub elapsed_ms: u64,
}

impl PollBudget {
    /// A budget of `timeout_secs` seconds, checked every `interval_ms`.
    pub fn from_secs(timeout_secs: u64, interval_ms: u64) -> (r: PollBudget)
        requires
            timeout_secs <= 1_000_000_000,
        ensures
            r.timeout_ms == timeout_secs * 1000,
            r.interval_ms == interval_ms,
    {
        PollBudget { timeout_ms: timeout_secs * 1000, interval_ms }
    }

    /// Check again after `elapsed_ms`?
    pub fn should_continue(&self, elapsed_ms: u64) -> (r: bool)
        ensures
            r == poll_again(elapsed_ms as int, self.timeout_ms as int),
    {
        elapsed_ms <= self.timeout_ms
    }

    /// The number of checks a poll that never succeeds makes when each check
    /// is followed by one interval.
    pub fn max_checks(&self) -> (r: u64)
        requires
            self.interval_ms > 0,
            self.timeout_ms < u64::MAX,
        ensures
            r == self.timeout_ms / self.interval_ms + 1,
    {
        let q = self.timeout_ms / self.interval_ms;
        assert(q <= self.timeout_ms) by (nonlinear_arith)
            requires q == self.timeout_ms / self.interval_ms, self.interval_ms > 0;
        q + 1
    }

    /// Run a poll on a clock that advances by one interval after each check.
    /// The condition holds from check `ready_at` on (counting from 0), or
    /// never when it is `None`.
    pub fn simulate(&self, ready_at: Option<u64>) -> (r: PollOutcome)
        requires
            self.interval_ms > 0,
            self.timeout_ms as int + self.interval_ms as int <= u64::MAX as int,
        ensures
            r.elapsed_ms == r.checks * self.interval_ms,
            r.elapsed_ms <= self.timeout_ms + self.interval_ms,
            r.found <==> (ready_at.is_some() && ready_at.unwrap() as int * self.interval_ms
                <= self.timeout_ms),
            r.found ==> r.checks == ready_at.unwrap(),
            !r.found ==> r.checks == self.timeout_ms / self.interval_ms + 1,
    {
        let mut k: u64 = 0;
        let mut t: u64 = 0;
        while t <= self.timeout_ms
            invariant
                self.interval_ms > 0,
                self.timeout_ms as int + self.interval_ms as int <= u64::MAX as int,
                t == k * self.interval_ms,
                t <= self.timeout_ms + self.interval_ms,
                ready_at.is_some() ==> k <= ready_at.unwrap(),
                k > 0 ==> (k - 1) * self.interval_ms <= self.timeout_ms,
            decreases self.timeout_ms + self.interval_ms - t,
        {
            if ready_at.is_some() && k == ready_at.unwrap() {
                return PollOutcome { found: true, checks: k, elapsed_ms: t };
            }
            proof {
                assert((k + 1) * self.interval_ms == k * self.interval_ms + self.interval_ms)
                    by (nonlinear_arith);
                assert(k <= k * self.interval_ms) by (nonlinear_arith)
                    requires self.interval_ms > 0, k >= 0;
                assert(((k + 1) - 1) * self.interval_ms == k * self.interval_ms);
            }
            t = t + self.interval_ms;
            k = k + 1;
        }
        proof {
            lemma_first_stop(self.timeout_ms as int, self.interval_ms as int, k as int);
            if ready_at.is_some() {
                let ra = ready_at.unwrap() as int;
                if ra * self.interval_ms <= self.timeout_ms {
                    assert(ra >= k);
                    assert(ra * self.interval_ms >= k * self.interval_ms) by (nonlinear_arith)
                        requires ra >= k, self.interval_ms > 0;
                }
            }
        }
        PollOutcome { found: false, checks: k, elapsed_ms: t }
    }
}

proof fn lemma_first_stop(timeout: int, interval: int, k: int)
    requires
        interval > 0,
        timeout >= 0,
        k >= 0,
        k * interval > timeout,
        k == 0 || (k - 1) * interval <= timeout,
    ensures
        k == timeout / interval + 1,
{
    let q = timeout / interval;
    assert(q * interval <= timeout && timeout < (q + 1) * interval) by (nonlinear_arith)
        requires interval > 0, q == timeout / interval, timeout >= 0;
    if k <= q {
        assert(k * interval <= q * interval) by (nonlinear_arith)
            requires k <= q, interval > 0;
    }
    if k >= q + 2 {
        assert((k - 1) * interval >= (q + 1) * interval) by (nonlinear_arith)
            requires k - 1 >= q + 1, interval > 0;
    }
}

/// A poll ends within its deadline plus one interval of slack, whatever the
/// page does: on a clock that advances one interval per check, the first
/// check past the deadline is check `timeout / interval + 1`, it comes at
/// most one interval after the deadline, and every earlier check is still
/// within the deadline.
pub proof fn law_poll_ends_within_slack(timeout_ms: int, interval_ms: int)
    requires
        timeout_ms >= 0,
        interval_ms > 0,
    ensures
        ({
            let k = timeout_ms / interval_ms + 1;
            &&& !poll_again(k * interval_ms, timeout_ms)
            &&& k * interval_ms <= timeout_ms + interval_ms
            &&& forall|j: int| 0 <= j < k ==> poll_again(#[trigger] (j * interval_ms), timeout_ms)
        }),
{
    let q = timeout_ms / interval_ms;
    let k = q + 1;
    assert(q * interval_ms <= timeout_ms && timeout_ms < (q + 1) * interval_ms) by (nonlinear_arith)
        requires interval_ms > 0, timeout_ms >= 0, q == timeout_ms / interval_ms;
    assert(k * interval_ms == q * interval_ms + interval_ms) by (nonlinear_arith)
        requires k == q + 1;
    assert forall|j: int| 0 <= j < k implies poll_again(#[trigger] (j * interval_ms), timeout_ms) by {
        assert(j * interval_ms <= q * interval_ms) by (nonlinear_arith)
            requires j <= q, interval_ms > 0;
    }
}

/// On any clock, a check made at most one interval after a check that was
/// still within the deadline is itself within the deadline plus one interval.
pub proof fn law_poll_slack_any_clock(prev_ms: int, next_ms: int, timeout_ms: int, interval_ms: int)
    requires
        poll_again(prev_ms, timeout_ms),
        next_ms <= prev_ms + interval_ms,
    ensures
        next_ms <= timeout_ms + interval_ms,
{
}

/// On a wall clock where one tick (its probe of at most `work_ms` and its
/// sleep of `interval_ms`) follows a check still within the deadline, a
/// poll that never succeeds makes its last check, and returns, at most one
/// interval plus one probe after the deadline: the loop's elapsed time at
/// return is bounded by `timeout + interval + work`, whatever the page does.
pub proof fn law_poll_wall_time(
    prev_ms: int,
    next_ms: int,
    timeout_ms: int,
    interval_ms: int,
    work_ms: int,
)
    requires
        poll_again(prev_ms, timeout_ms),
        next_ms <= prev_ms + interval_ms + work_ms,
        !poll_again(next_ms, timeout_ms),
    ensures
        timeout_ms < next_ms <= timeout_ms + interval_ms + work_ms,
{
}

} // verus!
