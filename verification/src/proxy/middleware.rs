//! Rate limits: one for all requests together, and one for each address.
use vstd::prelude::*;

use crate::clock::Stopwatch;
use crate::proxy::error::{ProxyError, ProxyErrorView};
use crate::table::Table;
use crate::text::{opt_str_view, split, split_on, texts, trim, trimmed};

verus! {

/// The window in which the requests of an address are counted, in nanoseconds: a minute.
pub const WINDOW_NANOS: u128 = 60_000_000_000;

/// The number of requests per minute that are let through where none is given.
pub const DEFAULT_RATE: u32 = 10;

/// The least number of requests per minute that an address has.
pub const LEAST_PER_ADDRESS: u32 = 5;

/// A rate limiter for all requests together: a direct `governor::RateLimiter` on the monotonic
/// clock of the standard library. Its bounds on traits of its own crate keep it from being declared
/// by itself.
#[verifier::external_body]
pub struct GlobalLimiter {
    limiter: governor::RateLimiter<
        governor::state::NotKeyed,
        governor::state::InMemoryState,
        governor::clock::MonotonicClock,
        governor::middleware::NoOpMiddleware<std::time::Instant>,
    >,
}

/// The number of requests per minute that a rate limiter was made for.
pub uninterp spec fn rate_of(limiter: GlobalLimiter) -> nat;

/// What a rate limiter has answered so far, in order: whether each request that it was asked about
/// was let through.
pub uninterp spec fn answers(limiter: GlobalLimiter) -> Seq<bool>;

/// `governor::RateLimiter::direct_with_clock` with the quota of `governor::Quota::per_minute` and
/// `governor::clock::MonotonicClock`: a rate limiter for the given number of requests per minute,
/// which has not been asked about any yet.
#[verifier::external_body]
fn limiter_per_minute(requests: u32) -> (r: GlobalLimiter)
    requires
        requests > 0,
    ensures
        rate_of(r) == requests,
        answers(r) == Seq::<bool>::empty(),
{
    let quota = governor::Quota::per_minute(std::num::NonZeroU32::new(requests).unwrap());
    let clock = governor::clock::MonotonicClock;
    GlobalLimiter { limiter: governor::RateLimiter::direct_with_clock(quota, &clock) }
}

/// `governor::RateLimiter::check`: whether one more request is let through now. The number of
/// requests per minute is also the number of requests that may come at once, and the readings of
/// `std::time::Instant` never decrease, so that as many requests as the rate says are let through
/// from the start. Of the requests after them nothing is said, since whether they are let through
/// depends on when they are made.
#[verifier::external_body]
fn limiter_check(limiter: &mut GlobalLimiter) -> (r: bool)
    ensures
        answers(*final(limiter)) == answers(*old(limiter)).push(r),
        answers(*old(limiter)).len() < rate_of(*old(limiter)) ==> r,
        rate_of(*final(limiter)) == rate_of(*old(limiter)),
{
    limiter.limiter.check().is_ok()
}

/// The requests of an address in a window.
#[derive(Debug, Clone, Copy)]
pub struct IpBucket {
    /// How many there were.
    pub count: u32,
    /// When the window began, in nanoseconds.
    pub window_start: u128,
}

/// The requests of each address.
pub type Buckets = Map<Seq<char>, IpBucket>;

/// The window of an address that makes a request at `now`: the one that is open, or else a new
/// one.
pub open spec fn window_at(buckets: Buckets, ip: Seq<char>, now: u128) -> IpBucket {
    if buckets.contains_key(ip) && now - buckets[ip].window_start < WINDOW_NANOS {
        buckets[ip]
    } else {
        IpBucket { count: 0, window_start: now }
    }
}

/// A request of an address at `now` is within the limit.
pub open spec fn within(buckets: Buckets, ip: Seq<char>, now: u128, limit: u32) -> bool {
    window_at(buckets, ip, now).count < limit
}

/// The window of an address once a request at `now` is counted. A counter that is full stays full.
pub open spec fn counted(buckets: Buckets, ip: Seq<char>, now: u128) -> IpBucket {
    let window = window_at(buckets, ip, now);
    if window.count < u32::MAX {
        IpBucket { count: (window.count + 1) as u32, ..window }
    } else {
        window
    }
}

/// The requests of each address once a request at `now` is counted.
pub open spec fn after_request(buckets: Buckets, ip: Seq<char>, now: u128) -> Buckets {
    buckets.insert(ip, counted(buckets, ip, now))
}

/// Whether a request is let through, and the requests of each address after it. A request that the
/// limit for all requests together stops is not counted.
pub open spec fn admission(
    buckets: Buckets,
    limit: u32,
    global: bool,
    ip: Seq<char>,
    now: u128,
) -> (bool, Buckets) {
    if global {
        (within(buckets, ip, now, limit), after_request(buckets, ip, now))
    } else {
        (false, buckets)
    }
}

/// The rate limits.
pub struct RateLimitState {
    global: GlobalLimiter,
    per_ip: Table<IpBucket>,
    per_ip_limit: u32,
    clock: Stopwatch,
}

impl RateLimitState {
    /// The limit for all requests together.
    pub closed spec fn global(&self) -> GlobalLimiter {
        self.global
    }

    /// The requests of each address.
    pub closed spec fn buckets(&self) -> Buckets {
        self.per_ip@
    }

    /// The last reading of the clock, in nanoseconds.
    pub closed spec fn reading(&self) -> u128 {
        self.clock.last_reading()
    }

    /// The number of requests that an address has per window.
    pub closed spec fn limit(&self) -> u32 {
        self.per_ip_limit
    }

    /// Rate limits for the given number of requests per minute.
    pub fn new(requests_per_minute: u32) -> (r: Self)
        ensures
            rate_of(r.global()) == (if requests_per_minute == 0 {
                DEFAULT_RATE
            } else {
                requests_per_minute
            }),
            r.limit() == (if requests_per_minute < LEAST_PER_ADDRESS {
                LEAST_PER_ADDRESS
            } else {
                requests_per_minute
            }),
            r.buckets() == Map::<Seq<char>, IpBucket>::empty(),
            r.reading() == 0,
            answers(r.global()) == Seq::<bool>::empty(),
    {
        let rate = if requests_per_minute == 0 {
            DEFAULT_RATE
        } else {
            requests_per_minute
        };
        let per_ip_limit = if requests_per_minute < LEAST_PER_ADDRESS {
            LEAST_PER_ADDRESS
        } else {
            requests_per_minute
        };
        RateLimitState {
            global: limiter_per_minute(rate),
            per_ip: Table::new(),
            per_ip_limit,
            clock: Stopwatch::start(),
        }
    }

    /// Rate limits that let a thousand requests per minute through.
    pub fn permissive() -> (r: Self)
        ensures
            rate_of(r.global()) == 1000,
            r.limit() == 1000,
            r.buckets() == Map::<Seq<char>, IpBucket>::empty(),
            r.reading() == 0,
            answers(r.global()) == Seq::<bool>::empty(),
    {
        RateLimitState::new(1000)
    }

    /// The number of requests of an address in its last window.
    pub fn requests_from(&self, ip: &str) -> (r: u32)
        ensures
            r == (if self.buckets().contains_key(ip@) {
                self.buckets()[ip@].count
            } else {
                0
            }),
    {
        match self.per_ip.get(ip) {
            Some(bucket) => bucket.count,
            None => 0,
        }
    }

    /// Counts a request of an address, and says whether it is within the limit.
    pub fn check_ip(&mut self, ip: &str) -> (r: bool)
        ensures
            final(self).global() == old(self).global(),
            final(self).limit() == old(self).limit(),
            final(self).reading() >= old(self).reading(),
            final(self).buckets() == after_request(
                old(self).buckets(),
                ip@,
                final(self).reading(),
            ),
            r == within(
                old(self).buckets(),
                ip@,
                final(self).reading(),
                old(self).limit(),
            ),
    {
        let now = self.clock.elapsed_nanos();
        self.check_ip_at(ip, now)
    }

    /// Counts a request of an address at `now`, and says whether it is within the limit.
    pub fn check_ip_at(&mut self, ip: &str, now: u128) -> (r: bool)
        ensures
            final(self).global() == old(self).global(),
            final(self).limit() == old(self).limit(),
            final(self).reading() == old(self).reading(),
            final(self).buckets() == after_request(old(self).buckets(), ip@, now),
            r == within(old(self).buckets(), ip@, now, old(self).limit()),
    {
        let mut bucket = IpBucket { count: 0, window_start: now };
        if let Some(open) = self.per_ip.get(ip) {
            if now < open.window_start || now - open.window_start < WINDOW_NANOS {
                bucket = *open;
            }
        }
        let allowed = bucket.count < self.per_ip_limit;
        bucket.count = bucket.count.saturating_add(1);
        self.per_ip.insert(ip.to_owned(), bucket);
        allowed
    }

    /// Whether one more request is let through by the limit for all requests together. The first
    /// ones are, as many as there may be in a minute.
    pub fn check_global(&mut self) -> (r: Result<(), ProxyError>)
        ensures
            answers(final(self).global()) == answers(old(self).global()).push(r is Ok),
            answers(old(self).global()).len() < rate_of(old(self).global()) ==> r is Ok,
            rate_of(final(self).global()) == rate_of(old(self).global()),
            final(self).limit() == old(self).limit(),
            final(self).buckets() == old(self).buckets(),
            final(self).reading() == old(self).reading(),
            r matches Err(e) ==> e@ == ProxyErrorView::RateLimitExceeded,
    {
        if limiter_check(&mut self.global) {
            Ok(())
        } else {
            Err(ProxyError::RateLimitExceeded)
        }
    }

    /// Whether a request of an address at `now` is let through, where `global` says whether the
    /// limit for all requests together lets it through. A request that it stops is not counted.
    pub fn admit_at(&mut self, global: bool, ip: &str, now: u128) -> (r: Result<(), ProxyError>)
        ensures
            final(self).global() == old(self).global(),
            final(self).limit() == old(self).limit(),
            final(self).reading() == old(self).reading(),
            (r is Ok, final(self).buckets()) == admission(
                old(self).buckets(),
                old(self).limit(),
                global,
                ip@,
                now,
            ),
            r matches Err(e) ==> e@ == ProxyErrorView::RateLimitExceeded,
    {
        if !global {
            return Err(ProxyError::RateLimitExceeded);
        }
        if self.check_ip_at(ip, now) {
            Ok(())
        } else {
            Err(ProxyError::RateLimitExceeded)
        }
    }
}

/// The address that a request comes from: the first that the `X-Forwarded-For` header names, or
/// else that of the connection.
pub open spec fn client_address(forwarded: Option<Seq<char>>, connection: Option<Seq<char>>) -> Seq<
    char,
> {
    match forwarded {
        Some(header) => trimmed(split(header, ',')[0]),
        None => match connection {
            Some(ip) => ip,
            None => "unknown"@,
        },
    }
}

/// The address that a request comes from. `forwarded` is its `X-Forwarded-For` header, where it has
/// one that is text; `connection` is the address of the connection, where it is known.
pub fn client_ip(forwarded: Option<&str>, connection: Option<&str>) -> (r: String)
    ensures
        r@ == client_address(opt_str_view(forwarded), opt_str_view(connection)),
{
    match forwarded {
        Some(header) => {
            let parts = split_on(header, ',');
            assert(texts(parts@)[0] == parts@[0]@);
            trim(parts[0].as_str())
        },
        None => match connection {
            Some(ip) => ip.to_owned(),
            None => "unknown".to_owned(),
        },
    }
}

/// Whether a request is let through now.
pub fn rate_limit_middleware(
    rate_limit: &mut RateLimitState,
    forwarded: Option<&str>,
    connection: Option<&str>,
) -> (r: Result<(), ProxyError>)
    ensures
        ({
            let ip = client_address(opt_str_view(forwarded), opt_str_view(connection));
            let now = final(rate_limit).reading();
            let global = answers(final(rate_limit).global()).last();
            &&& now >= old(rate_limit).reading()
            &&& answers(final(rate_limit).global()) == answers(old(rate_limit).global()).push(
                global,
            )
            &&& answers(old(rate_limit).global()).len() < rate_of(old(rate_limit).global())
                ==> global
            &&& (r is Ok, final(rate_limit).buckets()) == admission(
                old(rate_limit).buckets(),
                old(rate_limit).limit(),
                global,
                ip,
                now,
            )
        }),
        r matches Err(e) ==> e@ == ProxyErrorView::RateLimitExceeded,
        rate_of(final(rate_limit).global()) == rate_of(old(rate_limit).global()),
        final(rate_limit).limit() == old(rate_limit).limit(),
{
    let ip = client_ip(forwarded, connection);
    let global = rate_limit.check_global().is_ok();
    let now = rate_limit.clock.elapsed_nanos();
    rate_limit.admit_at(global, ip.as_str(), now)
}

/// The requests of each address after requests of one address at the given times.
pub open spec fn after_requests(buckets: Buckets, ip: Seq<char>, times: Seq<u128>) -> Buckets
    decreases times.len(),
{
    if times.len() == 0 {
        buckets
    } else {
        after_request(after_requests(buckets, ip, times.drop_last()), ip, times.last())
    }
}

/// Of the requests that an address makes within a window, those up to the limit are let through
/// and no other.
pub proof fn law_requests_per_window_are_limited(
    buckets: Buckets,
    ip: Seq<char>,
    times: Seq<u128>,
    limit: u32,
)
    requires
        !buckets.contains_key(ip),
        0 < times.len(),
        forall|i: int|
            0 <= i < times.len() ==> times[0] <= #[trigger] times[i] < times[0] + WINDOW_NANOS,
    ensures
        within(after_requests(buckets, ip, times.drop_last()), ip, times.last(), limit)
            <==> times.len() <= limit,
        after_requests(buckets, ip, times)[ip].window_start == times[0],
        after_requests(buckets, ip, times)[ip].count == (if times.len() <= u32::MAX {
            times.len()
        } else {
            u32::MAX as nat
        }),
    decreases times.len(),
{
    let before = times.drop_last();
    if before.len() > 0 {
        assert(before[0] == times[0]);
        assert forall|i: int| 0 <= i < before.len() implies before[0] <= #[trigger] before[i]
            < before[0] + WINDOW_NANOS by {
            assert(before[i] == times[i]);
        }
        law_requests_per_window_are_limited(buckets, ip, before, limit);
        assert(times.last() == times[times.len() - 1]);
    }
}

/// Once its window is over, an address starts anew.
pub proof fn law_windows_end(buckets: Buckets, ip: Seq<char>, now: u128)
    requires
        buckets.contains_key(ip),
        now >= buckets[ip].window_start + WINDOW_NANOS,
    ensures
        window_at(buckets, ip, now) == (IpBucket { count: 0, window_start: now }),
        counted(buckets, ip, now) == (IpBucket { count: 1, window_start: now }),
{
}

/// The requests of one address count for no other address.
pub proof fn law_addresses_are_independent(
    buckets: Buckets,
    ip: Seq<char>,
    other: Seq<char>,
    now: u128,
    later: u128,
)
    requires
        ip != other,
    ensures
        window_at(after_request(buckets, ip, now), other, later) == window_at(
            buckets,
            other,
            later,
        ),
{
}

} // verus!
