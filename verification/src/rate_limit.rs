//! A limit on how many requests of one kind a client makes within a window of
//! time.
use vstd::prelude::*;

use crate::names;
use crate::names::NameMap;

verus! {

/// Nanoseconds in a second.
pub const NANOS_PER_SECOND: u128 = 1_000_000_000;

/// The longest span that a window may have: 2^64 seconds less a nanosecond.
pub const LONGEST_SPAN: u128 = 18_446_744_073_709_551_615_999_999_999;

/// A request that came once too often.
#[derive(Debug, Clone, Copy, PartialEq, Eq, Structural)]
pub struct RateLimitExceeded {
    pub limit: u32,
    pub window_seconds: u64,
}

/// The requests of one client since a window of time opened.
#[derive(Debug, Clone, Copy, PartialEq, Eq, Structural)]
pub struct RateWindow {
    pub started_at: u128,
    pub count: u32,
}

/// The time from one instant to another, none where the other comes first.
/// Instants and spans are counted in nanoseconds.
pub open spec fn elapsed(now: u128, started_at: u128) -> u128 {
    if now >= started_at {
        (now - started_at) as u128
    } else {
        0
    }
}

/// The age at which a window is forgotten: twice its span, where that can be
/// expressed.
pub open spec fn stale_age(window: u128) -> u128 {
    if 2 * window <= LONGEST_SPAN {
        (2 * window) as u128
    } else {
        window
    }
}

/// A window that is not forgotten yet.
pub open spec fn fresh(now: u128, max_age: u128) -> spec_fn(RateWindow) -> bool {
    |w: RateWindow| elapsed(now, w.started_at) < max_age
}

/// The name of a client's window within a scope.
pub open spec fn window_key(scope: Seq<char>, token_name: Seq<char>) -> Seq<char> {
    scope + ":"@ + token_name
}

/// The window that counts a request made at `now`: the client's current one, or
/// a new one.
pub open spec fn current_window(
    windows: Seq<(Seq<char>, RateWindow)>,
    key: Seq<char>,
    window: u128,
    now: u128,
) -> RateWindow {
    match names::lookup(windows, key) {
        Some(w) => if elapsed(now, w.started_at) >= window {
            RateWindow { started_at: now, count: 0 }
        } else {
            w
        },
        None => RateWindow { started_at: now, count: 0 },
    }
}

/// The windows after a request at `now`, and whether the request is let through.
pub open spec fn checked(
    windows: Seq<(Seq<char>, RateWindow)>,
    key: Seq<char>,
    limit: u32,
    window: u128,
    now: u128,
) -> (Seq<(Seq<char>, RateWindow)>, bool) {
    let remaining = names::kept(windows, fresh(now, stale_age(window)));
    let current = current_window(remaining, key, window, now);
    if current.count >= limit {
        (names::inserted(remaining, key, current), false)
    } else {
        (
            names::inserted(
                remaining,
                key,
                RateWindow { started_at: current.started_at, count: (current.count + 1) as u32 },
            ),
            true,
        )
    }
}

fn time_elapsed(now: u128, started_at: u128) -> (r: u128)
    ensures
        r == elapsed(now, started_at),
{
    if now >= started_at {
        now - started_at
    } else {
        0
    }
}

pub fn stale_window(window: u128) -> (r: u128)
    requires
        window <= LONGEST_SPAN,
    ensures
        r == stale_age(window),
{
    if window <= LONGEST_SPAN / 2 {
        window * 2
    } else {
        window
    }
}

/// The windows of all clients.
#[derive(Debug)]
pub struct RateLimiter {
    windows: NameMap<RateWindow>,
}

impl View for RateLimiter {
    type V = Seq<(Seq<char>, RateWindow)>;

    closed spec fn view(&self) -> Seq<(Seq<char>, RateWindow)> {
        self.windows@
    }
}

impl RateLimiter {
    pub fn new() -> (r: Self)
        ensures
            r@ == Seq::<(Seq<char>, RateWindow)>::empty(),
    {
        RateLimiter { windows: NameMap::new() }
    }

    /// Lets a request at `now` through, or turns it down because the client has
    /// made `limit` of them since its window opened.
    pub fn check(
        &mut self,
        scope: &str,
        token_name: &str,
        limit: u32,
        window: u128,
        now: u128,
    ) -> (r: Result<(), RateLimitExceeded>)
        requires
            window <= LONGEST_SPAN,
        ensures
            names::names_sorted(old(self)@),
            names::names_sorted(final(self)@),
            ({
                let key = window_key(scope@, token_name@);
                let expected = checked(old(self)@, key, limit, window, now);
                &&& final(self)@ == expected.0
                &&& match r {
                    Ok(()) => expected.1,
                    Err(e) => !expected.1 && e == (RateLimitExceeded {
                        limit,
                        window_seconds: (window / NANOS_PER_SECOND) as u64,
                    }),
                }
            }),
    {
        let mut key = scope.to_owned();
        key.append(":");
        key.append(token_name);
        let max_age: u128 = stale_window(window);
        let test = |w: &RateWindow| -> (keep: bool)
            ensures
                keep == fresh(now, max_age)(*w),
            { time_elapsed(now, w.started_at) < max_age };
        self.windows.retain(test, Ghost(fresh(now, max_age)));
        let mut current = match self.windows.get(key.as_str()) {
            Some(w) => *w,
            None => RateWindow { started_at: now, count: 0 },
        };
        if time_elapsed(now, current.started_at) >= window {
            current = RateWindow { started_at: now, count: 0 };
        }
        if current.count >= limit {
            self.windows.insert(key, current);
            return Err(
                RateLimitExceeded { limit, window_seconds: (window / NANOS_PER_SECOND) as u64 },
            );
        }
        current = RateWindow { started_at: current.started_at, count: current.count + 1 };
        self.windows.insert(key, current);
        Ok(())
    }

    /// How many windows are remembered.
    pub fn window_count(&self) -> (r: usize)
        ensures
            r == self@.len(),
            names::names_sorted(self@),
    {
        self.windows.len()
    }
}

impl Default for RateLimiter {
    fn default() -> (r: Self)
        ensures
            r@ == Seq::<(Seq<char>, RateWindow)>::empty(),
    {
        RateLimiter::new()
    }
}

/// The windows after requests of one client at the given times, and how many of
/// the requests were let through.
pub open spec fn run(
    windows: Seq<(Seq<char>, RateWindow)>,
    key: Seq<char>,
    limit: u32,
    window: u128,
    times: Seq<u128>,
) -> (Seq<(Seq<char>, RateWindow)>, nat)
    decreases times.len(),
{
    if times.len() == 0 {
        (windows, 0)
    } else {
        let before = run(windows, key, limit, window, times.drop_last());
        let after = checked(before.0, key, limit, window, times.last());
        (
            after.0,
            before.1 + if after.1 {
                1nat
            } else {
                0nat
            },
        )
    }
}

/// Of the requests that a new client makes within one window the first `limit`
/// are let through, and no more.
pub proof fn limit_holds_within_a_window(
    windows: Seq<(Seq<char>, RateWindow)>,
    key: Seq<char>,
    limit: u32,
    window: u128,
    times: Seq<u128>,
)
    requires
        names::names_sorted(windows),
        names::lookup(windows, key) is None,
        window <= LONGEST_SPAN,
        forall|i: int|
            0 <= i < times.len() ==> times[0] <= #[trigger] times[i] < times[0] + window,
    ensures
        run(windows, key, limit, window, times).1 == if times.len() <= limit {
            times.len()
        } else {
            limit as nat
        },
        names::names_sorted(run(windows, key, limit, window, times).0),
        times.len() > 0 ==> names::lookup(run(windows, key, limit, window, times).0, key) == Some(
            RateWindow {
                started_at: times[0],
                count: if times.len() <= limit {
                    times.len() as u32
                } else {
                    limit
                },
            },
        ),
    decreases times.len(),
{
    if times.len() > 0 {
        let earlier = times.drop_last();
        let now = times.last();
        assert(now == times[times.len() - 1]);
        assert forall|i: int| 0 <= i < earlier.len() implies earlier[0] <= #[trigger] earlier[i]
            < earlier[0] + window by {
            assert(earlier[i] == times[i]);
        }
        limit_holds_within_a_window(windows, key, limit, window, earlier);
        let before = run(windows, key, limit, window, earlier).0;
        let keep = fresh(now, stale_age(window));
        names::kept_lookup(before, keep, key);
        let remaining = names::kept(before, keep);
        let current = current_window(remaining, key, window, now);
        let next = RateWindow {
            started_at: current.started_at,
            count: (current.count + 1) as u32,
        };
        names::inserted_sorted(remaining, key, current);
        names::inserted_lookup(remaining, key, current, key);
        names::inserted_sorted(remaining, key, next);
        names::inserted_lookup(remaining, key, next, key);
        if earlier.len() > 0 {
            assert(earlier[0] == times[0]);
        }
    }
}

/// A request of one client changes nothing for another whose window is not
/// stale yet.
pub proof fn clients_are_independent(
    windows: Seq<(Seq<char>, RateWindow)>,
    key: Seq<char>,
    limit: u32,
    window: u128,
    now: u128,
    other: Seq<char>,
)
    requires
        names::names_sorted(windows),
        other != key,
        names::lookup(windows, other) matches Some(w) ==> elapsed(now, w.started_at) < stale_age(
            window,
        ),
    ensures
        names::lookup(checked(windows, key, limit, window, now).0, other) == names::lookup(
            windows,
            other,
        ),
{
    let keep = fresh(now, stale_age(window));
    names::kept_lookup(windows, keep, other);
    let remaining = names::kept(windows, keep);
    let current = current_window(remaining, key, window, now);
    let next = RateWindow { started_at: current.started_at, count: (current.count + 1) as u32 };
    names::inserted_lookup(remaining, key, current, other);
    names::inserted_lookup(remaining, key, next, other);
}

/// Forgetting a stale window changes no decision: it would have been replaced
/// by a new one.
pub proof fn forgetting_changes_no_decision(
    windows: Seq<(Seq<char>, RateWindow)>,
    key: Seq<char>,
    limit: u32,
    window: u128,
    now: u128,
)
    requires
        names::names_sorted(windows),
    ensures
        checked(windows, key, limit, window, now).1 == (current_window(
            windows,
            key,
            window,
            now,
        ).count < limit),
{
    names::kept_lookup(windows, fresh(now, stale_age(window)), key);
}

} // verus!
