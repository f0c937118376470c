//! Fixed-window admission control.
//!
//! Each window admits up to `max_requests` calls; the count starts again at
//! the first call made a whole window after the window began. Being a fixed
//! window, a burst that straddles a boundary can see up to twice the limit
//! admitted within one window's length.
//!
//! Time is handed in by the caller as milliseconds on a monotonic clock.

use vstd::prelude::*;
use vstd::string::*;
use crate::text::{decimal, decimal_string, join};

verus! {

/// Settings of a rate limiter.
#[derive(Debug, Clone, Copy)]
pub struct RateLimiterConfig {
    /// Most requests admitted in one window.
    pub max_requests: u32,
    /// Length of a window, in milliseconds.
    pub window_ms: u64,
    /// A disabled limiter admits everything.
    pub enabled: bool,
}

impl Default for RateLimiterConfig {
    fn default() -> (r: RateLimiterConfig)
        ensures
            r.max_requests == 100 && r.window_ms == 60_000 && r.enabled,
    {
        RateLimiterConfig { max_requests: 100, window_ms: 60_000, enabled: true }
    }
}

pub struct RateLimiter {
    config: RateLimiterConfig,
    request_count: u64,
    window_start_ms: u64,
}

/// The text of the error given when a request is refused.
pub open spec fn limit_message(c: RateLimiterConfig) -> Seq<char> {
    "rate limit exceeded: "@ + decimal(c.max_requests as nat) + " requests per "@ + decimal(
        c.window_ms as nat,
    ) + " ms"@
}

/// The state of the current window: when it began, and how many requests
/// it has admitted.
pub struct RateWindow {
    pub start: nat,
    pub count: nat,
}

/// One check at time `now`: the window that follows, and whether the
/// request is admitted. A window is over once a whole window length has
/// passed since it began; a check then starts a new window at `now`.
pub open spec fn check_step(c: RateLimiterConfig, w: RateWindow, now: nat) -> (RateWindow, bool) {
    if !c.enabled {
        (w, true)
    } else {
        let base = if now >= w.start && now - w.start >= c.window_ms {
            RateWindow { start: now, count: 0 }
        } else {
            w
        };
        if base.count < c.max_requests {
            (RateWindow { start: base.start, count: base.count + 1 }, true)
        } else {
            (base, false)
        }
    }
}

/// A run of checks at the given times: the window afterwards, and for each
/// check whether it was admitted.
pub open spec fn run_checks(c: RateLimiterConfig, w: RateWindow, times: Seq<nat>) -> (RateWindow, Seq<bool>)
    decreases times.len(),
{
    if times.len() == 0 {
        (w, Seq::empty())
    } else {
        let (next, admitted) = check_step(c, w, times[0]);
        let (last, rest) = run_checks(c, next, times.drop_first());
        (last, seq![admitted] + rest)
    }
}

/// Checks made before a window ends are admitted while the count is below
/// the limit, and refused after.
proof fn lemma_run_within_window(c: RateLimiterConfig, start: nat, k: nat, times: Seq<nat>)
    requires
        c.enabled,
        k <= c.max_requests,
        forall|i: int| 0 <= i < times.len() ==> start <= #[trigger] times[i] < start + c.window_ms,
    ensures
        run_checks(c, RateWindow { start, count: k }, times).1.len() == times.len(),
        run_checks(c, RateWindow { start, count: k }, times).0 == (RateWindow {
            start,
            count: if k + times.len() < c.max_requests {
                k + times.len()
            } else {
                c.max_requests as nat
            },
        }),
        forall|i: int|
            0 <= i < times.len() ==> #[trigger] run_checks(c, RateWindow { start, count: k }, times).1[i]
                == (k + i < c.max_requests),
    decreases times.len(),
{
    if times.len() > 0 {
        let next = if k < c.max_requests {
            k + 1
        } else {
            k
        };
        assert(check_step(c, RateWindow { start, count: k }, times[0]) == (
            RateWindow { start, count: next },
            k < c.max_requests,
        ));
        let rest = times.drop_first();
        assert forall|i: int| 0 <= i < rest.len() implies start <= #[trigger] rest[i] < start
            + c.window_ms by {
            assert(rest[i] == times[i + 1]);
        }
        lemma_run_within_window(c, start, next, rest);
    }
}

/// With a limit of at least one, a fresh window admits exactly `max_requests`
/// checks made before it ends and refuses the next one; a check made once a
/// whole window has passed since it began is admitted again.
pub proof fn lemma_fixed_window(c: RateLimiterConfig, start: nat, times: Seq<nat>, later: nat)
    requires
        c.enabled,
        c.max_requests >= 1,
        times.len() == c.max_requests + 1,
        forall|i: int| 0 <= i < times.len() ==> start <= #[trigger] times[i] < start + c.window_ms,
        later >= start + c.window_ms,
    ensures
        forall|i: int|
            0 <= i < c.max_requests ==> #[trigger] run_checks(c, RateWindow { start, count: 0 }, times).1[i],
        !run_checks(c, RateWindow { start, count: 0 }, times).1[c.max_requests as int],
        check_step(c, run_checks(c, RateWindow { start, count: 0 }, times).0, later).1,
{
    lemma_run_within_window(c, start, 0, times);
}

impl RateLimiter {
    pub closed spec fn config(&self) -> RateLimiterConfig {
        self.config
    }

    /// The current window.
    pub closed spec fn window(&self) -> RateWindow {
        RateWindow { start: self.window_start_ms as nat, count: self.request_count as nat }
    }

    pub closed spec fn wf(&self) -> bool {
        self.request_count <= self.config.max_requests
    }

    /// Creates a limiter whose first window begins at `now_ms`.
    pub fn new(config: RateLimiterConfig, now_ms: u64) -> (r: RateLimiter)
        ensures
            r.wf(),
            r.config() == config,
            r.window() == (RateWindow { start: now_ms as nat, count: 0 }),
    {
        RateLimiter { config, request_count: 0, window_start_ms: now_ms }
    }

    /// Creates a limiter that admits every request.
    pub fn disabled() -> (r: RateLimiter)
        ensures
            r.wf(),
            !r.config().enabled,
            r.config().max_requests == 100,
            r.config().window_ms == 60_000,
            r.window() == (RateWindow { start: 0, count: 0 }),
    {
        let mut config = RateLimiterConfig::default();
        config.enabled = false;
        RateLimiter::new(config, 0)
    }

    /// Admits or refuses one request at time `now_ms`.
    pub fn check(&mut self, now_ms: u64) -> (r: Result<(), String>)
        requires
            old(self).wf(),
        ensures
            final(self).wf(),
            final(self).config() == old(self).config(),
            (final(self).window(), r is Ok) == check_step(
                old(self).config(),
                old(self).window(),
                now_ms as nat,
            ),
            r is Err ==> r->Err_0@ == limit_message(old(self).config()),
    {
        if !self.config.enabled {
            return Ok(());
        }
        if now_ms >= self.window_start_ms && now_ms - self.window_start_ms >= self.config.window_ms {
            self.window_start_ms = now_ms;
            self.request_count = 0;
        }
        if self.request_count >= self.config.max_requests as u64 {
            let m = join("rate limit exceeded: ", decimal_string(self.config.max_requests as u64).as_str());
            let m = m.concat(" requests per ");
            let m = m.concat(decimal_string(self.config.window_ms).as_str());
            return Err(m.concat(" ms"));
        }
        self.request_count = self.request_count + 1;
        Ok(())
    }

    /// Requests admitted in the current window.
    pub fn current_count(&self) -> (r: u64)
        ensures
            r == self.window().count,
    {
        self.request_count
    }

    /// Requests still admitted in the current window.
    pub fn remaining(&self) -> (r: u64)
        requires
            self.wf(),
        ensures
            r == self.config().max_requests - self.window().count,
    {
        self.config.max_requests as u64 - self.request_count
    }

    /// Starts a new, empty window at `now_ms`.
    pub fn reset(&mut self, now_ms: u64)
        requires
            old(self).wf(),
        ensures
            final(self).wf(),
            final(self).config() == old(self).config(),
            final(self).window() == (RateWindow { start: now_ms as nat, count: 0 }),
    {
        self.window_start_ms = now_ms;
        self.request_count = 0;
    }
}

} // verus!
