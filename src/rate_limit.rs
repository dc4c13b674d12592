//! Per-client fixed-window request counting.

use dashmap::DashMap;
use vstd::prelude::*;

verus! {

#[verifier::external_type_specification]
#[verifier::external_body]
#[verifier::reject_recursive_types(K)]
#[verifier::reject_recursive_types(V)]
#[verifier::reject_recursive_types(S)]
pub struct ExDashMap<K, V, S>(DashMap<K, V, S>);

/// The entries that a window table holds: client key to `(window_start, count)`.
pub uninterp spec fn table_entries(m: DashMap<String, (u64, u64)>) -> Map<Seq<char>, (u64, u64)>;

/// Relies on `DashMap::new`: a freshly created map holds no entry.
#[verifier::external_body]
fn table_new() -> (r: DashMap<String, (u64, u64)>)
    ensures
        forall|k: Seq<char>| !#[trigger] table_entries(r).contains_key(k),
{
    DashMap::new()
}

/// Relies on `DashMap::get`: the value stored under `key`, if there is one.
#[verifier::external_body]
fn table_get(m: &DashMap<String, (u64, u64)>, key: &str) -> (r: Option<(u64, u64)>)
    ensures
        r == (if table_entries(*m).contains_key(key@) {
            Some(table_entries(*m)[key@])
        } else {
            None
        }),
{
    m.get(key).map(|e| *e.value())
}

/// Relies on `DashMap::insert`: afterwards `key` maps to `value`, other keys unchanged.
#[verifier::external_body]
fn table_insert(m: &mut DashMap<String, (u64, u64)>, key: String, value: (u64, u64))
    ensures
        table_entries(*final(m)) == table_entries(*old(m)).insert(key@, value),
{
    m.insert(key, value);
}

/// How long ago a window opened, as seen at `now`; a clock reading earlier
/// than the window start counts as no time at all.
pub open spec fn elapsed(start: u64, now: u64) -> int {
    if now >= start {
        now - start
    } else {
        0
    }
}

/// The window entry after one request at `now`, and whether that request
/// exceeds `max_requests`.  An expired entry is reset to a new window holding
/// this one request, which is always let through.  Otherwise the count goes up
/// by one (saturating), a missing entry counting as zero from `now`, and the
/// request is over the limit when the count exceeds `max_requests`.
pub open spec fn window_step(
    entry: Option<(u64, u64)>,
    now: u64,
    window: u64,
    max_requests: u64,
) -> ((u64, u64), bool) {
    match entry {
        Some((start, count)) => if elapsed(start, now) > window {
            ((now, 1u64), false)
        } else {
            let next: u64 = if count < u64::MAX {
                (count + 1) as u64
            } else {
                count
            };
            ((start, next), next > max_requests)
        },
        None => ((now, 1u64), 1 > max_requests),
    }
}

/// Abstract state of a rate limiter.
pub struct LimiterModel {
    pub windows: Map<Seq<char>, (u64, u64)>,
    pub max_requests: u64,
    pub window: u64,
}

impl LimiterModel {
    pub open spec fn entry(self, key: Seq<char>) -> Option<(u64, u64)> {
        if self.windows.contains_key(key) {
            Some(self.windows[key])
        } else {
            None
        }
    }

    /// The state after one request for `key` at `now`, and its verdict.
    pub open spec fn check(self, key: Seq<char>, now: u64) -> (LimiterModel, bool) {
        let (e, exceeded) = window_step(self.entry(key), now, self.window, self.max_requests);
        (LimiterModel { windows: self.windows.insert(key, e), ..self }, exceeded)
    }
}

/// Counts requests per client key in fixed windows of `window` time units
/// (the caller's clock, e.g. milliseconds); a request is over the limit when
/// it is number `max_requests + 1` or later within its window.
pub struct RateLimiter {
    windows: DashMap<String, (u64, u64)>,
    max_requests: u64,
    window: u64,
}

impl View for RateLimiter {
    type V = LimiterModel;

    closed spec fn view(&self) -> LimiterModel {
        LimiterModel {
            windows: table_entries(self.windows),
            max_requests: self.max_requests,
            window: self.window,
        }
    }
}

impl RateLimiter {
    /// A limiter with no client seen yet.
    pub fn new(max_requests: u64, window: u64) -> (r: RateLimiter)
        ensures
            r@.max_requests == max_requests,
            r@.window == window,
            forall|k: Seq<char>| !#[trigger] r@.windows.contains_key(k),
    {
        RateLimiter { windows: table_new(), max_requests, window }
    }

    pub fn max_requests(&self) -> (r: u64)
        ensures
            r == self@.max_requests,
    {
        self.max_requests
    }

    pub fn window(&self) -> (r: u64)
        ensures
            r == self@.window,
    {
        self.window
    }

    /// The `(window_start, count)` entry held for `key`, if any.
    pub fn entry(&self, key: &str) -> (r: Option<(u64, u64)>)
        ensures
            r == self@.entry(key@),
    {
        table_get(&self.windows, key)
    }

    /// Records one request of `key` at time `now` and reports whether it
    /// exceeds the limit.  The look-up, decision and update happen under one
    /// exclusive borrow, so no two requests can see the same count.
    pub fn check_and_increment(&mut self, key: &str, now: u64) -> (exceeded: bool)
        ensures
            (final(self)@, exceeded) == old(self)@.check(key@, now),
    {
        let current = table_get(&self.windows, key);
        let (entry, exceeded) = match current {
            Some((start, count)) => {
                let age: u64 = if now >= start { now - start } else { 0 };
                if age <= self.window {
                    let next: u64 = if count < u64::MAX { count + 1 } else { count };
                    ((start, next), next > self.max_requests)
                } else {
                    ((now, 1u64), false)
                }
            },
            None => ((now, 1u64), 1 > self.max_requests),
        };
        table_insert(&mut self.windows, key.to_string(), entry);
        exceeded
    }
}

/// The limiter state after a request of `key` at each time of `times`, in order.
pub open spec fn after_requests(m: LimiterModel, key: Seq<char>, times: Seq<u64>) -> LimiterModel
    decreases times.len(),
{
    if times.len() == 0 {
        m
    } else {
        after_requests(m, key, times.drop_last()).check(key, times.last()).0
    }
}

/// The verdict on the last request of `times`.
pub open spec fn last_verdict(m: LimiterModel, key: Seq<char>, times: Seq<u64>) -> bool
    recommends
        times.len() > 0,
{
    after_requests(m, key, times.drop_last()).check(key, times.last()).1
}

proof fn lemma_count_within_window(m: LimiterModel, key: Seq<char>, times: Seq<u64>, k: int)
    requires
        1 <= k <= times.len() <= u64::MAX,
        m.entry(key) is None || elapsed(m.entry(key)->Some_0.0, times[0]) > m.window,
        forall|i: int| 0 <= i < times.len() ==> elapsed(times[0], #[trigger] times[i]) <= m.window,
    ensures
        after_requests(m, key, times.take(k)).entry(key) == Some((times[0], k as u64)),
        after_requests(m, key, times.take(k)).max_requests == m.max_requests,
        after_requests(m, key, times.take(k)).window == m.window,
    decreases k,
{
    let prefix = times.take(k);
    assert(prefix.drop_last() =~= times.take(k - 1));
    assert(prefix.last() == times[k - 1]);
    if k > 1 {
        lemma_count_within_window(m, key, times, k - 1);
        assert(elapsed(times[0], times[k - 1]) <= m.window);
    } else {
        assert(times.take(0) =~= Seq::<u64>::empty());
    }
}

/// Within one window, opened by the first request of a client key (one not
/// seen before, or whose last window has run out), requests number
/// 1 to `max_requests` pass and every later request is over the limit.  A
/// window reopened by a reset always lets its first request through, so there
/// the limit is taken to be at least one.
pub proof fn lemma_window_admits_max_requests(
    m: LimiterModel,
    key: Seq<char>,
    times: Seq<u64>,
    k: int,
)
    requires
        1 <= k <= times.len() <= u64::MAX,
        m.entry(key) is None || (elapsed(m.entry(key)->Some_0.0, times[0]) > m.window
            && m.max_requests >= 1),
        forall|i: int| 0 <= i < times.len() ==> elapsed(times[0], #[trigger] times[i]) <= m.window,
    ensures
        last_verdict(m, key, times.take(k)) == (k > m.max_requests),
{
    let prefix = times.take(k);
    assert(prefix.drop_last() =~= times.take(k - 1));
    assert(prefix.last() == times[k - 1]);
    if k > 1 {
        lemma_count_within_window(m, key, times, k - 1);
        assert(elapsed(times[0], times[k - 1]) <= m.window);
    } else {
        assert(times.take(0) =~= Seq::<u64>::empty());
    }
}

/// Once more than the window has passed since a key's window opened, its next
/// request starts a new window with a count of one and, whatever the old
/// count, is let through.
pub proof fn lemma_expired_window_resets(m: LimiterModel, key: Seq<char>, now: u64)
    requires
        m.entry(key) is Some,
        elapsed(m.entry(key)->Some_0.0, now) > m.window,
    ensures
        m.check(key, now).0.entry(key) == Some((now, 1u64)),
        !m.check(key, now).1,
{
}

} // verus!
