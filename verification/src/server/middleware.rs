//! Global fixed-window rate limiting.

use vstd::prelude::*;

verus! {

/// A point in time from the monotonic clock.
#[verifier::external_type_specification]
#[verifier::external_body]
pub struct ExInstant(std::time::Instant);

/// Wraps `Instant::now`. Nothing is stated of the reading: it comes from the
/// machine's monotonic clock.
#[verifier::external_body]
fn instant_now() -> std::time::Instant {
    std::time::Instant::now()
}

/// The time from `earlier` to `later` as `Instant::duration_since` gives it
/// (zero when `earlier` is the later one): a function of the two readings.
pub uninterp spec fn duration_between(later: std::time::Instant, earlier: std::time::Instant) -> std::time::Duration;

/// The whole seconds of a duration, as `Duration::as_secs` gives them.
pub uninterp spec fn whole_secs(d: std::time::Duration) -> u64;

/// Wraps `Instant::duration_since`.
#[verifier::external_body]
fn duration_since(later: &std::time::Instant, earlier: &std::time::Instant) -> (r: std::time::Duration)
    ensures
        r == duration_between(*later, *earlier),
{
    later.duration_since(*earlier)
}

/// Wraps `Duration::as_secs`.
#[verifier::external_body]
fn duration_as_secs(d: &std::time::Duration) -> (r: u64)
    ensures
        r == whole_secs(*d),
{
    d.as_secs()
}

/// `count + 1`, saturating at `u32::MAX`.
pub open spec fn saturating_inc(count: u32) -> u32 {
    if count == u32::MAX { u32::MAX } else { (count + 1) as u32 }
}

/// The counter after one request that arrives `elapsed` seconds after the
/// window started: the window restarts when `elapsed >= window_secs`.
pub open spec fn count_after(count: u32, elapsed: u64, window_secs: u64) -> u32 {
    if elapsed >= window_secs { 1 } else { saturating_inc(count) }
}

/// The abstract state of a rate limiter.
pub struct RateLimiterView {
    pub max_requests: u32,
    pub window_secs: u64,
    pub count: u32,
    pub window_start: std::time::Instant,
}

/// The limiter after one request that arrives at `now`, `elapsed` seconds
/// after the current window started: an expired window restarts at `now`
/// with the request as its first; otherwise the request is counted.
pub open spec fn step(v: RateLimiterView, elapsed: u64, now: std::time::Instant) -> RateLimiterView {
    RateLimiterView {
        max_requests: v.max_requests,
        window_secs: v.window_secs,
        count: count_after(v.count, elapsed, v.window_secs),
        window_start: if elapsed >= v.window_secs { now } else { v.window_start },
    }
}

/// The whole seconds from the start of the current window to `now`.
pub open spec fn secs_into_window(v: RateLimiterView, now: std::time::Instant) -> u64 {
    whole_secs(duration_between(now, v.window_start))
}

/// Global fixed-window rate limiter (for example 120 requests a minute).
///
/// A single shared counter is used rather than per-client tracking. Because
/// the window resets fully on expiry, up to twice `max_requests` can be
/// allowed across a window boundary.
pub struct RateLimiter {
    max_requests: u32,
    window_secs: u64,
    count: u32,
    window_start: std::time::Instant,
}

impl View for RateLimiter {
    type V = RateLimiterView;

    closed spec fn view(&self) -> RateLimiterView {
        RateLimiterView {
            max_requests: self.max_requests,
            window_secs: self.window_secs,
            count: self.count,
            window_start: self.window_start,
        }
    }
}

impl RateLimiter {
    /// The limiter's invariant: both limits are positive.
    pub open spec fn well_formed(&self) -> bool {
        self@.max_requests > 0 && self@.window_secs > 0
    }

    /// A limiter allowing `max_requests` requests per `window_secs` seconds,
    /// with a window starting now.
    pub fn new(max_requests: u32, window_secs: u64) -> (r: RateLimiter)
        requires
            max_requests > 0,
            window_secs > 0,
        ensures
            r@.max_requests == max_requests,
            r@.window_secs == window_secs,
            r@.count == 0,
            r.well_formed(),
    {
        RateLimiter { max_requests, window_secs, count: 0, window_start: instant_now() }
    }

    /// Records a request that arrives `elapsed_secs` after the current window
    /// started, at time `now`; returns whether it is within the limit.
    pub fn check_elapsed(&mut self, elapsed_secs: u64, now: std::time::Instant) -> (allowed: bool)
        ensures
            final(self)@ == step(old(self)@, elapsed_secs, now),
            allowed == (final(self)@.count <= old(self)@.max_requests),
    {
        if elapsed_secs >= self.window_secs {
            self.count = 0;
            self.window_start = now;
        }
        self.count = if self.count == u32::MAX { u32::MAX } else { self.count + 1 };
        self.count <= self.max_requests
    }

    /// Checks whether the next request is allowed. Returns `true` if within
    /// limits, `false` if the caller should be throttled.
    pub fn check(&mut self) -> (allowed: bool)
        ensures
            exists|now: std::time::Instant|
                final(self)@ == #[trigger] step(old(self)@, secs_into_window(old(self)@, now), now),
            allowed == (final(self)@.count <= old(self)@.max_requests),
    {
        let now = instant_now();
        let d = duration_since(&now, &self.window_start);
        let elapsed = duration_as_secs(&d);
        let ghost before = self@;
        let allowed = self.check_elapsed(elapsed, now);
        assert(self@ == step(before, secs_into_window(before, now), now));
        allowed
    }

    /// The number of requests allowed per window.
    pub fn max_requests(&self) -> (r: u32)
        ensures
            r == self@.max_requests,
    {
        self.max_requests
    }

    /// The window length in seconds.
    pub fn window_secs(&self) -> (r: u64)
        ensures
            r == self@.window_secs,
    {
        self.window_secs
    }

    /// The number of requests counted in the current window.
    pub fn count(&self) -> (r: u32)
        ensures
            r == self@.count,
    {
        self.count
    }
}

/// The counter after `k` requests that all arrive inside the current window.
pub open spec fn count_within_window(count: u32, k: nat) -> u32
    decreases k,
{
    if k == 0 { count } else { saturating_inc(count_within_window(count, (k - 1) as nat)) }
}

/// Inside one window, starting from an empty counter, the first
/// `max_requests` requests are allowed and every later one is denied
/// (the counter saturates at `u32::MAX`, so a limit of `u32::MAX` is left out).
pub proof fn law_window_allows_exactly_max(max_requests: u32, k: nat)
    requires
        0 < max_requests < u32::MAX,
        k > 0,
    ensures
        (count_within_window(0, k) <= max_requests) == (k <= max_requests),
    decreases k,
{
    lemma_count_within_window(k);
}

proof fn lemma_count_within_window(k: nat)
    ensures
        count_within_window(0, k) == if k <= u32::MAX { k } else { u32::MAX as nat },
    decreases k,
{
    if k > 0 {
        lemma_count_within_window((k - 1) as nat);
    }
}

/// A request that arrives after the window has elapsed starts a new window
/// and is always allowed.
pub proof fn law_expired_window_allows(count: u32, elapsed: u64, window_secs: u64, max_requests: u32)
    requires
        max_requests > 0,
        elapsed >= window_secs,
    ensures
        count_after(count, elapsed, window_secs) == 1,
        count_after(count, elapsed, window_secs) <= max_requests,
{
}

/// Once the limit is exceeded inside a window, every further request in the
/// same window is denied: the counter never wraps around.
pub proof fn law_denied_stays_denied(count: u32, elapsed: u64, window_secs: u64, max_requests: u32)
    requires
        count > max_requests,
        elapsed < window_secs,
    ensures
        count_after(count, elapsed, window_secs) > max_requests,
        count_after(count, elapsed, window_secs) >= count,
{
}

/// The whole seconds from clock reading `earlier` to clock reading `later`,
/// both in nanoseconds, as `as_secs` of their difference gives them (zero
/// when `later` is not after `earlier`).
pub open spec fn secs_between(later: int, earlier: int) -> u64 {
    if later <= earlier {
        0
    } else if (later - earlier) / 1_000_000_000 > u64::MAX {
        u64::MAX
    } else {
        ((later - earlier) / 1_000_000_000) as u64
    }
}

/// The counter and the window start after the first `n` requests of a run,
/// `times` being their arrival readings in nanoseconds: each request goes
/// through `count_after` with the whole seconds since the window started, and
/// an expired window restarts at the request, as in `step`.
pub open spec fn run_window(times: Seq<int>, window_secs: u64, count: u32, start: int, n: nat) -> (u32, int)
    decreases n,
{
    if n == 0 {
        (count, start)
    } else {
        let prev = run_window(times, window_secs, count, start, (n - 1) as nat);
        let elapsed = secs_between(times[n - 1], prev.1);
        (count_after(prev.0, elapsed, window_secs), if elapsed >= window_secs { times[n - 1] } else { prev.1 })
    }
}

/// The number of allowed requests among requests `i` up to `k - 1` of a run.
pub open spec fn allowed_between(
    times: Seq<int>,
    window_secs: u64,
    max_requests: u32,
    count: u32,
    start: int,
    i: nat,
    k: nat,
) -> nat
    decreases k,
{
    if k <= i {
        0
    } else {
        allowed_between(times, window_secs, max_requests, count, start, i, (k - 1) as nat) + if run_window(
            times,
            window_secs,
            count,
            start,
            k,
        ).0 <= max_requests {
            1nat
        } else {
            0nat
        }
    }
}

/// The readings never go back.
pub open spec fn nondecreasing(times: Seq<int>) -> bool {
    forall|a: int, b: int| 0 <= a <= b < times.len() ==> times[a] <= times[b]
}

proof fn lemma_secs_between_monotone(l1: int, e1: int, l2: int, e2: int)
    requires
        e2 <= e1,
        e1 <= l1,
        l1 <= l2,
    ensures
        secs_between(l1, e1) <= secs_between(l2, e2),
{
    if l1 > e1 {
        vstd::arithmetic::div_mod::lemma_div_is_ordered(l1 - e1, l2 - e2, 1_000_000_000);
    }
}

proof fn lemma_start_not_after(times: Seq<int>, window_secs: u64, count: u32, start: int, k: nat)
    requires
        nondecreasing(times),
        times.len() > 0,
        start <= times[0],
        k < times.len(),
    ensures
        run_window(times, window_secs, count, start, k).1 <= times[k as int],
    decreases k,
{
    if k > 0 {
        lemma_start_not_after(times, window_secs, count, start, (k - 1) as nat);
    }
}

/// Along requests `i` up to `k - 1` of a run inside an interval shorter than
/// the window: either the window has not restarted and each allowed request
/// raised the counter, or it restarted once, at or after request `i`.
proof fn lemma_window_phases(
    times: Seq<int>,
    window_secs: u64,
    max_requests: u32,
    count: u32,
    start: int,
    i: nat,
    j: nat,
    k: nat,
)
    requires
        0 < max_requests < u32::MAX,
        nondecreasing(times),
        start <= times[0],
        i <= k <= j + 1,
        j < times.len(),
        secs_between(times[j as int], times[i as int]) < window_secs,
    ensures
        ({
            let st = run_window(times, window_secs, count, start, k);
            let a = allowed_between(times, window_secs, max_requests, count, start, i, k);
            (a <= st.0 && a <= max_requests) || (times[i as int] <= st.1 && a <= max_requests + st.0 && a <= 2
                * max_requests)
        }),
    decreases k - i,
{
    if k > i {
        lemma_window_phases(times, window_secs, max_requests, count, start, i, j, (k - 1) as nat);
        lemma_start_not_after(times, window_secs, count, start, (k - 1) as nat);
        let prev = run_window(times, window_secs, count, start, (k - 1) as nat);
        if times[i as int] <= prev.1 {
            lemma_secs_between_monotone(times[k - 1], prev.1, times[j as int], times[i as int]);
        }
    }
}

/// A fixed window lets through at most twice `max_requests` requests in any
/// stretch of time shorter than the window: the window restarts at most once
/// inside such a stretch, and each window allows at most `max_requests`.
/// `times` are the arrival readings of a run of requests, in nanoseconds;
/// the limiter starts it with `count` requests in a window begun at `start`.
/// (The counter saturates at `u32::MAX`, so a limit of `u32::MAX` is left out.)
pub proof fn law_at_most_twice_max_per_window(
    times: Seq<int>,
    window_secs: u64,
    max_requests: u32,
    count: u32,
    start: int,
    i: nat,
    j: nat,
)
    requires
        0 < max_requests < u32::MAX,
        nondecreasing(times),
        start <= times[0],
        i <= j < times.len(),
        secs_between(times[j as int], times[i as int]) < window_secs,
    ensures
        allowed_between(times, window_secs, max_requests, count, start, i, j + 1) <= 2 * max_requests,
{
    lemma_window_phases(times, window_secs, max_requests, count, start, i, j, j + 1);
}

/// Whether a request passes the API-key check: always when no key (or an
/// empty key) is configured; else only with the header `Bearer <key>`.
pub open spec fn key_allows(expected: Option<Seq<char>>, auth_header: Seq<char>) -> bool {
    match expected {
        Some(k) => k.len() == 0 || auth_header == "Bearer "@ + k,
        None => true,
    }
}

/// Whether a request passes the API-key check (see `key_allows`); a missing
/// or unreadable header counts as empty.
pub fn api_key_allows(expected: Option<&str>, auth_header: Option<&str>) -> (r: bool)
    ensures
        r == key_allows(
            match expected { Some(k) => Some(k@), None => None },
            match auth_header { Some(h) => h@, None => Seq::empty() },
        ),
{
    match expected {
        Some(k) => {
            if k.is_empty() {
                return true;
            }
            let mut want = crate::text::string_of("Bearer ");
            crate::text::push_str(&mut want, k);
            let header: &str = match auth_header {
                Some(h) => h,
                None => "",
            };
            proof {
                reveal_strlit("");
                assert(""@ =~= Seq::<char>::empty());
            }
            assert(header@ == match auth_header { Some(h) => h@, None => Seq::<char>::empty() });
            crate::text::str_eq(header, want.as_str())
        },
        None => true,
    }
}

} // verus!
