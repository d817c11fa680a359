//! Points in time and the clocks that they are read from.
use vstd::prelude::*;

verus! {

/// The first second of the earliest representable date, 1 January of the year -262143.
pub const FIRST_SECOND: i64 = -8334601228800;

/// The last second of the latest representable date, 31 December of the year 262142.
pub const LAST_SECOND: i64 = 8210266876799;

/// The seconds of a day.
pub const DAY_SECONDS: i64 = 86400;

/// `secs` and `nanos` denote a point in time: the second lies within the representable dates,
/// and the nanoseconds reach a second only where they denote a leap second.
pub open spec fn representable(secs: int, nanos: int) -> bool {
    &&& FIRST_SECOND <= secs <= LAST_SECOND
    &&& 0 <= nanos
    &&& nanos < 1_000_000_000 || (nanos < 2_000_000_000 && secs % 60 == 59)
}

/// The calendar date, as `YYYY-MM-DD`, of the day with the given number, where 1 January 1970 is
/// day 0.
pub uninterp spec fn date_of_day(day: int) -> Seq<char>;

/// A point in time as RFC 3339 writes it.
pub uninterp spec fn rfc3339(secs: int, nanos: int) -> Seq<char>;

/// `chrono::DateTime::from_timestamp`: there is a date and time for the given Unix second and
/// nanosecond exactly where they are `representable`.
#[verifier::external_body]
fn has_date_time(secs: i64, nanos: u32) -> (r: bool)
    ensures
        r == representable(secs as int, nanos as int),
{
    chrono::DateTime::from_timestamp(secs, nanos).is_some()
}

/// `chrono::Utc::now`: the current time as Unix second and nanosecond. Whatever the clock shows
/// is representable, not before the Unix epoch and not within a leap second.
#[verifier::external_body]
fn utc_now() -> (r: (i64, u32))
    ensures
        representable(r.0 as int, r.1 as int),
        r.0 >= 0,
        r.1 < 1_000_000_000,
{
    let now = chrono::Utc::now();
    (now.timestamp(), now.timestamp_subsec_nanos())
}

/// `chrono::DateTime::format` with `%Y-%m-%d`: the date in UTC, which depends on the day alone.
/// No other day within the representable range has the same date.
#[verifier::external_body]
fn format_date(secs: i64, nanos: u32) -> (r: String)
    requires
        representable(secs as int, nanos as int),
    ensures
        r@ == date_of_day(secs as int / DAY_SECONDS as int),
        forall|other: int|
            FIRST_SECOND / DAY_SECONDS <= other <= LAST_SECOND / DAY_SECONDS
                && #[trigger] date_of_day(other) == r@ ==> other == secs as int
                / DAY_SECONDS as int,
{
    chrono::DateTime::from_timestamp(secs, nanos).unwrap().format("%Y-%m-%d").to_string()
}

/// `chrono::DateTime::to_rfc3339`: the point in time as RFC 3339 writes it, in UTC.
#[verifier::external_body]
fn format_rfc3339(secs: i64, nanos: u32) -> (r: String)
    requires
        representable(secs as int, nanos as int),
    ensures
        r@ == rfc3339(secs as int, nanos as int),
{
    chrono::DateTime::from_timestamp(secs, nanos).unwrap().to_rfc3339()
}

/// A point in time in UTC.
#[derive(Debug, Clone, Copy, PartialEq, Eq)]
pub struct Timestamp {
    secs: i64,
    nanos: u32,
}

impl Timestamp {
    #[verifier::type_invariant]
    spec fn well_formed(self) -> bool {
        representable(self.secs as int, self.nanos as int)
    }

    /// The seconds since the Unix epoch.
    pub closed spec fn seconds(self) -> int {
        self.secs as int
    }

    /// The nanoseconds since the last whole second.
    pub closed spec fn subsec_nanos(self) -> int {
        self.nanos as int
    }

    /// The number of the UTC day, where 1 January 1970 is day 0.
    pub open spec fn day(self) -> int {
        self.seconds() / DAY_SECONDS as int
    }

    /// The date in UTC as `YYYY-MM-DD`.
    pub open spec fn date(self) -> Seq<char> {
        date_of_day(self.day())
    }

    /// The point in time is representable, as every one that a program holds is.
    pub open spec fn valid(self) -> bool {
        representable(self.seconds(), self.subsec_nanos())
    }

    /// The point in time at the given Unix second and nanosecond.
    pub closed spec fn at(secs: i64, nanos: u32) -> Timestamp {
        Timestamp { secs, nanos }
    }

    /// The current time, which is not before the Unix epoch.
    pub fn now() -> (r: Timestamp)
        ensures
            r.valid(),
            r.seconds() >= 0,
            r.subsec_nanos() < 1_000_000_000,
    {
        let (secs, nanos) = utc_now();
        Timestamp { secs, nanos }
    }

    /// The point in time at the given Unix second and nanosecond, if there is one.
    pub fn from_timestamp(secs: i64, nanos: u32) -> (r: Option<Timestamp>)
        ensures
            r is Some <==> representable(secs as int, nanos as int),
            r matches Some(t) ==> {
                &&& t == Timestamp::at(secs, nanos)
                &&& t.seconds() == secs
                &&& t.subsec_nanos() == nanos
            },
    {
        if has_date_time(secs, nanos) {
            Some(Timestamp { secs, nanos })
        } else {
            None
        }
    }

    /// The seconds since the Unix epoch.
    pub fn timestamp(&self) -> (r: i64)
        ensures
            r == self.seconds(),
            FIRST_SECOND <= r <= LAST_SECOND,
    {
        proof {
            use_type_invariant(self);
        }
        self.secs
    }

    /// The nanoseconds since the last whole second.
    pub fn timestamp_subsec_nanos(&self) -> (r: u32)
        ensures
            r == self.subsec_nanos(),
    {
        self.nanos
    }

    /// The date in UTC as `YYYY-MM-DD`. It belongs to no other day.
    pub fn date_text(&self) -> (r: String)
        ensures
            r@ == self.date(),
            forall|other: Timestamp|
                other.valid() && #[trigger] other.date() == r@ ==> other.day() == self.day(),
    {
        proof {
            use_type_invariant(self);
        }
        format_date(self.secs, self.nanos)
    }

    /// The point in time as RFC 3339 writes it.
    pub fn to_rfc3339(&self) -> (r: String)
        ensures
            r@ == rfc3339(self.seconds(), self.subsec_nanos()),
    {
        proof {
            use_type_invariant(self);
        }
        format_rfc3339(self.secs, self.nanos)
    }
}

/// The point in time at a second and a nanosecond is at that second and that nanosecond, and no
/// other point in time is.
pub proof fn law_points_in_time_are_read_back(secs: i64, nanos: u32, other: Timestamp)
    ensures
        Timestamp::at(secs, nanos).seconds() == secs,
        Timestamp::at(secs, nanos).subsec_nanos() == nanos,
        Timestamp::at(secs, nanos).valid() <==> representable(secs as int, nanos as int),
        other.seconds() == secs && other.subsec_nanos() == nanos ==> other == Timestamp::at(
            secs,
            nanos,
        ),
{
}

/// `std::time::Instant`, a reading of the monotonic clock.
#[verifier::external_type_specification]
#[verifier::external_body]
pub struct ExInstant(std::time::Instant);

/// `std::time::Instant::now`: a reading of the monotonic clock. Nothing is known of it.
#[verifier::external_body]
fn instant_now() -> std::time::Instant {
    std::time::Instant::now()
}

/// `std::time::Instant::elapsed`: the nanoseconds since `start`. Nothing is known of them.
#[verifier::external_body]
fn nanos_since(start: &std::time::Instant) -> u128 {
    start.elapsed().as_nanos()
}

/// A stopwatch on the monotonic clock. Its readings never go back.
pub struct Stopwatch {
    start: std::time::Instant,
    last: u128,
}

impl Stopwatch {
    /// The last reading, in nanoseconds since the start.
    pub closed spec fn last_reading(&self) -> u128 {
        self.last
    }

    /// A stopwatch that starts now, at zero.
    pub fn start() -> (r: Stopwatch)
        ensures
            r.last_reading() == 0,
    {
        Stopwatch { start: instant_now(), last: 0 }
    }

    /// The nanoseconds since the start, which are no fewer than at the last reading.
    pub fn elapsed_nanos(&mut self) -> (r: u128)
        ensures
            r >= old(self).last_reading(),
            final(self).last_reading() == r,
    {
        let elapsed = nanos_since(&self.start);
        if elapsed > self.last {
            self.last = elapsed;
        }
        self.last
    }
}

/// A point in time is made where there is one, and tells the second and the nanosecond that it was
/// made of; its date is that of the day in which its second lies.
pub proof fn law_points_in_time_tell_their_second(
    secs: i64,
    nanos: u32,
    made: Option<Timestamp>,
    time: Timestamp,
    second: i64,
    nano: u32,
    date: String,
)
    requires
        call_ensures(Timestamp::from_timestamp, (secs, nanos), made),
        made is Some ==> time == made->0,
        call_ensures(Timestamp::timestamp, (&time,), second),
        call_ensures(Timestamp::timestamp_subsec_nanos, (&time,), nano),
        call_ensures(Timestamp::date_text, (&time,), date),
    ensures
        made is Some <==> representable(secs as int, nanos as int),
        made is Some ==> second == secs && nano == nanos && date@ == date_of_day(
            secs as int / 86400,
        ),
{
}

/// A stopwatch begins at zero and never goes back.
pub proof fn law_stopwatches_do_not_go_back(
    begun: Stopwatch,
    watch: &mut Stopwatch,
    first: u128,
)
    requires
        call_ensures(Stopwatch::start, (), begun),
        call_ensures(Stopwatch::elapsed_nanos, (watch,), first),
    ensures
        begun.last_reading() == 0,
        first >= old(watch).last_reading(),
        final(watch).last_reading() == first,
{
}

/// A point in time is written as RFC 3339 writes its second and its nanosecond.
pub proof fn law_points_in_time_are_written(time: &Timestamp, r: String)
    requires
        call_ensures(Timestamp::to_rfc3339, (time,), r),
    ensures
        r@ == rfc3339(time.seconds(), time.subsec_nanos()),
{
}

} // verus!
