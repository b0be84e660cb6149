//! Points in time and spans between them. `chrono` reads the former and
//! measures the latter.

use vstd::prelude::*;
use vstd::string::*;

verus! {

/// The earliest second that a point in time can lie in.
pub const FIRST_SECOND: i64 = -8_334_601_228_800;

/// The latest second that a point in time can lie in.
pub const LAST_SECOND: i64 = 8_210_266_876_799;

/// The nanoseconds of a second.
pub const NANOS_PER_SECOND: i64 = 1_000_000_000;

/// The longest span that can be compared with an elapsed time, in nanoseconds.
pub const LONGEST_INTERVAL: i128 = 9_223_372_036_854_775_807_000_000;

/// Whether seconds since 1970 and nanoseconds name a point in time. More
/// nanoseconds than a second has name a point in a leap second, which only
/// the last second of a minute can have.
pub open spec fn valid_time(secs: i64, nanos: u32) -> bool {
    &&& FIRST_SECOND <= secs <= LAST_SECOND
    &&& nanos < NANOS_PER_SECOND || (nanos < 2 * NANOS_PER_SECOND && secs as int % 60 == 59)
}

/// A point in time, in universal time.
#[derive(Debug, Clone, Copy, PartialEq, Eq, Structural)]
pub struct UtcTime {
    secs: i64,
    nanos: u32,
}

impl UtcTime {
    #[verifier::type_invariant]
    closed spec fn valid(self) -> bool {
        valid_time(self.secs, self.nanos)
    }

    /// The second, counted from the beginning of 1970.
    pub closed spec fn second(self) -> i64 {
        self.secs
    }

    /// The nanoseconds since the second began.
    pub closed spec fn nanosecond(self) -> u32 {
        self.nanos
    }

    /// A point in time, from seconds and nanoseconds that name one.
    pub fn new(secs: i64, nanos: u32) -> (r: Option<UtcTime>)
        ensures
            match r {
                Some(time) => valid_time(secs, nanos) && time.second() == secs && time.nanosecond()
                    == nanos,
                None => !valid_time(secs, nanos),
            },
    {
        if FIRST_SECOND <= secs && secs <= LAST_SECOND {
            let second_of_minute: i64 = (secs - FIRST_SECOND) % 60;
            if nanos < 1_000_000_000 || (nanos < 2_000_000_000 && second_of_minute == 59) {
                return Some(UtcTime { secs, nanos });
            }
        }
        None
    }
}

/// A span of time.
#[derive(Debug, Clone, Copy, PartialEq, Eq, Structural)]
pub struct Span {
    secs: u64,
    nanos: u32,
}

impl Span {
    #[verifier::type_invariant]
    closed spec fn valid(self) -> bool {
        self.nanos < NANOS_PER_SECOND
    }

    /// The length in whole seconds.
    pub closed spec fn seconds(self) -> u64 {
        self.secs
    }

    /// What the length has beyond whole seconds, in nanoseconds.
    pub closed spec fn nanosecond(self) -> u32 {
        self.nanos
    }

    /// The length in nanoseconds.
    pub open spec fn length(self) -> int {
        self.seconds() * NANOS_PER_SECOND + self.nanosecond()
    }

    /// A span of seconds and of nanoseconds that make no second.
    pub fn new(secs: u64, nanos: u32) -> (r: Option<Span>)
        ensures
            match r {
                Some(span) => nanos < NANOS_PER_SECOND && span.seconds() == secs
                    && span.nanosecond() == nanos,
                None => nanos >= NANOS_PER_SECOND,
            },
    {
        if nanos < 1_000_000_000 {
            Some(Span { secs, nanos })
        } else {
            None
        }
    }

    /// No time at all.
    pub fn zero() -> (r: Span)
        ensures
            r.length() == 0,
    {
        Span { secs: 0, nanos: 0 }
    }

    /// A span of milliseconds.
    pub fn from_millis(millis: u64) -> (r: Span)
        ensures
            r.length() == millis * 1_000_000,
    {
        Span { secs: millis / 1000, nanos: ((millis % 1000) * 1_000_000) as u32 }
    }

    /// The whole seconds.
    pub fn as_secs(&self) -> (r: u64)
        ensures
            r == self.seconds(),
    {
        self.secs
    }

    /// The nanoseconds beyond whole seconds.
    pub fn subsec_nanos(&self) -> (r: u32)
        ensures
            r == self.nanosecond(),
            r < NANOS_PER_SECOND,
    {
        proof {
            use_type_invariant(self);
        }
        self.nanos
    }
}

/// Two spans of the same length are the same.
pub proof fn law_span_is_its_length(a: Span, b: Span)
    requires
        a.length() == b.length(),
        a.nanosecond() < NANOS_PER_SECOND,
        b.nanosecond() < NANOS_PER_SECOND,
    ensures
        a == b,
{
}

/// What `chrono::DateTime::parse_from_rfc3339` makes of a text: the second and
/// the nanosecond of the point in time that it writes, or the message of the
/// error.
pub uninterp spec fn rfc3339_time(text: Seq<char>) -> Result<(i64, u32), Seq<char>>;

/// `chrono::DateTime::parse_from_rfc3339`, in universal time. Claimed: it
/// succeeds on the texts that write a point in time and returns that; on any
/// other text it fails, and the message of the error depends on the text
/// alone.
#[verifier::external_body]
fn read_rfc3339(text: &str) -> (r: Result<(i64, u32), String>)
    ensures
        rfc3339_time(text@) == (match r {
            Ok(time) => Ok::<(i64, u32), Seq<char>>(time),
            Err(message) => Err::<(i64, u32), Seq<char>>(message@),
        }),
        r matches Ok(time) ==> valid_time(time.0, time.1),
{
    chrono::DateTime::parse_from_rfc3339(text)
        .map(|t| t.with_timezone(&chrono::Utc))
        .map(|t| (t.timestamp(), t.timestamp_subsec_nanos()))
        .map_err(|e| e.to_string())
}

/// The leap second that lies between two points in time and that their
/// seconds do not count: that of the earlier one, if the other's time of day is
/// later.
pub open spec fn leap_between(
    secs: int,
    nanos: int,
    earlier_secs: int,
    earlier_nanos: int,
) -> int {
    if secs % 86_400 > earlier_secs % 86_400 && earlier_nanos >= NANOS_PER_SECOND {
        1
    } else if secs % 86_400 < earlier_secs % 86_400 && nanos >= NANOS_PER_SECOND {
        -1
    } else {
        0
    }
}

/// The time between two points in nanoseconds, less than zero if the first
/// lies before the second. Days have 86400 seconds, and the only leap seconds
/// are those in which the two points lie.
pub open spec fn nanos_between(
    secs: int,
    nanos: int,
    earlier_secs: int,
    earlier_nanos: int,
) -> int {
    (secs - earlier_secs + leap_between(secs, nanos, earlier_secs, earlier_nanos))
        * NANOS_PER_SECOND + (nanos - earlier_nanos)
}

/// The subtraction of one `chrono::DateTime` from another. Claimed: it returns
/// the time between them, in seconds and nanoseconds of the same sign.
#[verifier::external_body]
fn subtract(secs: i64, nanos: u32, earlier_secs: i64, earlier_nanos: u32) -> (r: (i64, i32))
    requires
        valid_time(secs, nanos),
        valid_time(earlier_secs, earlier_nanos),
    ensures
        r.0 * NANOS_PER_SECOND + r.1 == nanos_between(
            secs as int,
            nanos as int,
            earlier_secs as int,
            earlier_nanos as int,
        ),
        -NANOS_PER_SECOND < r.1 < NANOS_PER_SECOND,
        r.0 > 0 ==> r.1 >= 0,
        r.0 < 0 ==> r.1 <= 0,
{
    let later = chrono::DateTime::<chrono::Utc>::from_timestamp(secs, nanos).unwrap();
    let earlier = chrono::DateTime::<chrono::Utc>::from_timestamp(earlier_secs, earlier_nanos).unwrap();
    let between = later - earlier;
    (between.num_seconds(), between.subsec_nanos())
}

/// `chrono::Duration::from_std`. Claimed: it keeps every span up to the
/// longest it can hold, and fails on longer ones with a fixed message.
#[verifier::external_body]
fn duration_from_std(secs: u64, nanos: u32) -> (r: Result<(i64, i32), String>)
    requires
        nanos < NANOS_PER_SECOND,
    ensures
        match r {
            Ok(span) => {
                &&& secs * NANOS_PER_SECOND + nanos <= LONGEST_INTERVAL
                &&& span.0 == secs
                &&& span.1 == nanos
            },
            Err(message) => {
                &&& secs * NANOS_PER_SECOND + nanos > LONGEST_INTERVAL
                &&& message@ == "Source duration value is out of range for the target type"@
            },
        },
{
    chrono::Duration::from_std(std::time::Duration::new(secs, nanos))
        .map(|d| (d.num_seconds(), d.subsec_nanos()))
        .map_err(|e| e.to_string())
}

/// `chrono::Utc::now`. Claimed: it returns a point in time, never one in a
/// leap second. Which one is not said. It has no arguments; on a machine whose
/// clock stands before 1970 or beyond the last second it does not return.
#[verifier::external_body]
fn clock_reading() -> (r: (i64, u32))
    ensures
        valid_time(r.0, r.1),
        r.1 < NANOS_PER_SECOND,
{
    let now = chrono::Utc::now();
    (now.timestamp(), now.timestamp_subsec_nanos())
}

impl UtcTime {
    /// The time that the machine's clock shows.
    pub fn now() -> (r: UtcTime)
        ensures
            valid_time(r.second(), r.nanosecond()),
            r.nanosecond() < NANOS_PER_SECOND,
    {
        let reading = clock_reading();
        UtcTime { secs: reading.0, nanos: reading.1 }
    }
}

/// Reads a point in time; of a text that writes none, the message that says
/// why.
pub fn read_time(text: &str) -> (r: Result<UtcTime, String>)
    ensures
        match r {
            Ok(time) => rfc3339_time(text@) == Ok::<(i64, u32), Seq<char>>(
                (time.second(), time.nanosecond()),
            ),
            Err(message) => rfc3339_time(text@) == Err::<(i64, u32), Seq<char>>(message@),
        },
{
    match read_rfc3339(text) {
        Ok(time) => Ok(UtcTime { secs: time.0, nanos: time.1 }),
        Err(message) => Err(message),
    }
}

/// The time from one point to another in nanoseconds, less than zero if the
/// latter comes first.
pub open spec fn elapsed(now: UtcTime, then: UtcTime) -> int {
    nanos_between(
        now.second() as int,
        now.nanosecond() as int,
        then.second() as int,
        then.nanosecond() as int,
    )
}

/// Whether more time than an interval has passed. An interval that is too
/// long to be compared gives the message that says so.
pub fn passed(now: UtcTime, then: UtcTime, interval: Span) -> (r: Result<bool, String>)
    ensures
        match r {
            Ok(more) => interval.length() <= LONGEST_INTERVAL && more == (elapsed(now, then)
                > interval.length()),
            Err(message) => interval.length() > LONGEST_INTERVAL && message@
                == "Source duration value is out of range for the target type"@,
        },
{
    proof {
        use_type_invariant(&now);
        use_type_invariant(&then);
        use_type_invariant(&interval);
    }
    let between = subtract(now.secs, now.nanos, then.secs, then.nanos);
    match duration_from_std(interval.secs, interval.nanos) {
        Ok(limit) => {
            let between_nanos: i128 = between.0 as i128 * 1_000_000_000 + between.1 as i128;
            let limit_nanos: i128 = limit.0 as i128 * 1_000_000_000 + limit.1 as i128;
            Ok(between_nanos > limit_nanos)
        },
        Err(message) => Err(message),
    }
}

/// A point in time is named by a second of the calendar and by nanoseconds that
/// make less than a second, or less than two in the last second of a minute; and
/// a span by any number of seconds and by nanoseconds that make less than one.
pub proof fn law_times_and_spans_are_named(
    secs: i64,
    nanos: u32,
    time: Option<UtcTime>,
    length: u64,
    span: Option<Span>,
)
    requires
        call_ensures(UtcTime::new, (secs, nanos), time),
        call_ensures(Span::new, (length, nanos), span),
    ensures
        time is Some <==> -8_334_601_228_800 <= secs <= 8_210_266_876_799 && (nanos < 1_000_000_000
            || (nanos < 2_000_000_000 && secs as int % 60 == 59)),
        time matches Some(t) ==> t.second() == secs && t.nanosecond() == nanos,
        span is Some <==> nanos < 1_000_000_000,
        span matches Some(s) ==> s.length() == length * 1_000_000_000 + nanos,
{
}

/// A span is as long as its seconds and nanoseconds are together; a span of
/// milliseconds is a million nanoseconds long for each; and what a span gives
/// back makes up its length.
pub proof fn law_spans_have_their_length(
    millis: u64,
    made: Span,
    nothing: Span,
    span: Span,
    secs: u64,
    nanos: u32,
)
    requires
        call_ensures(Span::from_millis, (millis,), made),
        call_ensures(Span::zero, (), nothing),
        call_ensures(Span::as_secs, (&span,), secs),
        call_ensures(Span::subsec_nanos, (&span,), nanos),
    ensures
        span.length() == span.seconds() * 1_000_000_000 + span.nanosecond(),
        span.length() == secs * 1_000_000_000 + nanos,
        nanos < 1_000_000_000,
        made.length() == millis * 1_000_000,
        nothing.length() == 0,
{
}

/// Between two points outside leap seconds lies the difference of the
/// nanoseconds that they have since 1970. One in a leap second counts a second
/// more towards a point later in the day, and what counts forward counts
/// backward alike.
pub proof fn law_elapsed_time_is_the_difference(now: UtcTime, then: UtcTime)
    ensures
        now.nanosecond() < 1_000_000_000 && then.nanosecond() < 1_000_000_000 ==> elapsed(now, then)
            == (now.second() * 1_000_000_000 + now.nanosecond()) - (then.second() * 1_000_000_000
            + then.nanosecond()),
        then.nanosecond() >= 1_000_000_000 && now.second() as int % 86_400 > then.second() as int
            % 86_400 ==> elapsed(now, then) == (now.second() * 1_000_000_000 + now.nanosecond())
            - (then.second() * 1_000_000_000 + then.nanosecond()) + 1_000_000_000,
        then.nanosecond() >= 1_000_000_000 && now.nanosecond() < 1_000_000_000
            && now.second() as int % 86_400 <= then.second() as int % 86_400 ==> elapsed(now, then)
            == (now.second() * 1_000_000_000 + now.nanosecond()) - (then.second() * 1_000_000_000
            + then.nanosecond()),
        now.second() as int % 86_400 == then.second() as int % 86_400 ==> elapsed(now, then) == (
        now.second() * 1_000_000_000 + now.nanosecond()) - (then.second() * 1_000_000_000
            + then.nanosecond()),
        elapsed(now, then) == -elapsed(then, now),
{
}

/// More than an interval has passed exactly if the time between two points is
/// longer, by a nanosecond or more; only intervals beyond what 64-bit
/// milliseconds hold cannot be compared.
pub proof fn law_passing_is_exact(
    now: UtcTime,
    then: UtcTime,
    interval: Span,
    r: Result<bool, String>,
)
    requires
        call_ensures(passed, (now, then, interval), r),
        now.nanosecond() < 1_000_000_000,
        then.nanosecond() < 1_000_000_000,
    ensures
        r is Ok <==> interval.seconds() * 1_000_000_000 + interval.nanosecond()
            <= 9_223_372_036_854_775_807 * 1_000_000,
        r matches Ok(more) ==> (more <==> (now.second() * 1_000_000_000 + now.nanosecond()) - (
        then.second() * 1_000_000_000 + then.nanosecond()) > interval.seconds() * 1_000_000_000
            + interval.nanosecond()),
{
}

/// A time is read as what it writes, and what writes none is not read.
pub proof fn law_times_are_read_as_written(text: &str, r: Result<UtcTime, String>)
    requires
        call_ensures(read_time, (text,), r),
    ensures
        rfc3339_time(text@) matches Ok(then) ==> r matches Ok(time) && time.second() == then.0
            && time.nanosecond() == then.1,
        rfc3339_time(text@) matches Err(cause) ==> r matches Err(message) && message@ == cause,
{
}

} // verus!
