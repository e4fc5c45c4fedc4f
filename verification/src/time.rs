//! Instants and signed spans of time, in chrono's representation: whole
//! seconds plus a nanosecond part in `0..1_000_000_000`.
use vstd::prelude::*;
use crate::text::{digit_char, nat_decimal};


verus! {

/// Nanoseconds in one second.
pub const NANOS_PER_SEC: u32 = 1_000_000_000;

/// Every instant that chrono's `DateTime<Utc>` can hold lies within this many
/// seconds of the Unix epoch (chrono's years run from -262143 to 262142).
pub const TIMESTAMP_LIMIT: i64 = 10_000_000_000_000;

/// The largest span chrono's `TimeDelta` holds, in nanoseconds:
/// `i64::MAX` milliseconds, either sign.
pub open spec fn max_delta_nanos() -> int {
    i64::MAX as int * 1_000_000
}

/// Division that rounds toward zero, as Rust's `/` does on signed integers.
pub open spec fn trunc_div(a: int, b: int) -> int {
    if a >= 0 { a / b } else { -((-a) / b) }
}

/// The remainder that goes with `trunc_div`: Rust's `%` on signed integers,
/// which takes the sign of `a`.
pub open spec fn trunc_rem(a: int, b: int) -> int {
    if a >= 0 { a % b } else { -((-a) % b) }
}

/// A point in time, UTC: `secs` seconds and `nanos` nanoseconds after the
/// Unix epoch (`secs` may be negative, `nanos` never is).
#[derive(Clone, Copy, Debug, PartialEq, Eq)]
pub struct Timestamp {
    pub secs: i64,
    pub nanos: u32,
}

impl Timestamp {
    /// The instant lies in chrono's range and has no leap-second part.
    pub open spec fn wf(&self) -> bool {
        &&& -TIMESTAMP_LIMIT <= self.secs <= TIMESTAMP_LIMIT
        &&& self.nanos < NANOS_PER_SEC
    }

    /// Nanoseconds since the Unix epoch.
    pub open spec fn total_nanos(&self) -> int {
        self.secs * 1_000_000_000 + self.nanos
    }

    /// `self` comes strictly before `other` (chrono orders instants by
    /// seconds, then nanoseconds).
    pub open spec fn before(&self, other: Timestamp) -> bool {
        self.secs < other.secs || (self.secs == other.secs && self.nanos < other.nanos)
    }

    /// For valid instants, chrono's order is the order of time.
    pub proof fn lemma_before_is_earlier(&self, other: Timestamp)
        requires
            self.wf(),
            other.wf(),
        ensures
            self.before(other) <==> self.total_nanos() < other.total_nanos(),
    {
        assert(self.before(other) <==> self.total_nanos() < other.total_nanos()) by (nonlinear_arith)
            requires
                self.nanos < 1_000_000_000,
                other.nanos < 1_000_000_000,
        ;
    }

    /// The instant `secs` seconds and `nanos` nanoseconds after the epoch,
    /// where that is a valid instant.
    pub fn new(secs: i64, nanos: u32) -> (r: Option<Timestamp>)
        ensures
            r is Some <==> (Timestamp { secs, nanos }).wf(),
            r matches Some(t) ==> t.secs == secs && t.nanos == nanos,
    {
        if -TIMESTAMP_LIMIT <= secs && secs <= TIMESTAMP_LIMIT && nanos < NANOS_PER_SEC {
            Some(Timestamp { secs, nanos })
        } else {
            None
        }
    }

    /// Whether `self` comes strictly before `other`.
    pub fn is_before(&self, other: &Timestamp) -> (r: bool)
        ensures
            r == self.before(*other),
    {
        self.secs < other.secs || (self.secs == other.secs && self.nanos < other.nanos)
    }

    /// The span from `rhs` to `self` (`self - rhs` in chrono).
    pub fn signed_duration_since(&self, rhs: &Timestamp) -> (d: Duration)
        requires
            self.wf(),
            rhs.wf(),
        ensures
            d.wf(),
            d.total_nanos() == self.total_nanos() - rhs.total_nanos(),
    {
        let mut secs: i64 = self.secs - rhs.secs;
        let nanos: u32;
        if self.nanos >= rhs.nanos {
            nanos = self.nanos - rhs.nanos;
        } else {
            secs = secs - 1;
            nanos = self.nanos + (NANOS_PER_SEC - rhs.nanos);
        }
        let d = Duration { secs, nanos };
        assert(d.total_nanos() == self.total_nanos() - rhs.total_nanos()) by (nonlinear_arith)
            requires
                secs == (if self.nanos >= rhs.nanos { self.secs - rhs.secs } else { self.secs - rhs.secs - 1 }),
                nanos == (if self.nanos >= rhs.nanos { self.nanos - rhs.nanos } else { self.nanos + 1_000_000_000 - rhs.nanos }),
                d.secs == secs,
                d.nanos == nanos,
        ;
        assert(d.wf()) by (nonlinear_arith)
            requires
                d.total_nanos() == self.total_nanos() - rhs.total_nanos(),
                -10_000_000_000_000 <= self.secs <= 10_000_000_000_000,
                -10_000_000_000_000 <= rhs.secs <= 10_000_000_000_000,
                self.nanos < 1_000_000_000,
                rhs.nanos < 1_000_000_000,
                d.nanos < 1_000_000_000,
        ;
        d
    }

    /// The current instant, as the system clock gives it; an error where
    /// chrono's `Utc::now` would panic: a clock before the epoch, or past
    /// chrono's range.
    pub fn now() -> (r: Result<Timestamp, ClockError>)
        ensures
            r matches Ok(t) ==> t.wf(),
    {
        match system_clock() {
            Some((secs, nanos)) => {
                let s: i64 = #[verifier::truncate] (secs as i64);
                match chrono_from_timestamp(s, nanos) {
                    Some((secs, nanos)) => Ok(Timestamp { secs, nanos }),
                    None => Err(ClockError),
                }
            },
            None => Err(ClockError),
        }
    }

    /// The instant in RFC 3339, as chrono writes it, where chrono's date
    /// range holds it.
    pub fn rfc3339(&self) -> (r: Option<String>)
        requires
            self.wf(),
        ensures
            r matches Some(t) ==> t@ == chrono_rfc3339(self.secs, self.nanos),
            -8_000_000_000_000 <= self.secs <= 8_000_000_000_000 ==> r is Some,
    {
        rfc3339_parts(self.secs, self.nanos)
    }
}

/// The system clock could not be read as a chrono instant.
#[derive(Clone, Copy, Debug, PartialEq, Eq)]
pub struct ClockError;

/// Calls `std::time::UNIX_EPOCH.elapsed()`: the time since the epoch by the
/// system clock, as whole seconds and the nanoseconds beyond them, or `None`
/// when the clock reads before the epoch. Claimed, as std documents
/// `Duration::subsec_nanos`: the nanoseconds are below one second. Nothing
/// is said of which reading it is: that is the clock's.
#[verifier::external_body]
fn system_clock() -> (r: Option<(u64, u32)>)
    ensures
        r matches Some(p) ==> p.1 < NANOS_PER_SEC,
{
    match std::time::UNIX_EPOCH.elapsed() {
        Ok(d) => Some((d.as_secs(), d.subsec_nanos())),
        Err(_) => None,
    }
}

/// Calls `chrono::DateTime::from_timestamp(secs, nanos)` and reads the
/// instant back (`timestamp`, `timestamp_subsec_nanos`). Claimed, from
/// chrono 0.4.45's source: an instant it makes is `secs` seconds and `nanos`
/// nanoseconds after the epoch, and lies in chrono's date range (years
/// -262143 to 262142, within 10^13 seconds of the epoch). When it refuses
/// (out of range, or a nanosecond part it cannot hold) nothing more is said.
#[verifier::external_body]
fn chrono_from_timestamp(secs: i64, nanos: u32) -> (r: Option<(i64, u32)>)
    ensures
        r matches Some(p) ==> p.0 == secs && p.1 == nanos && -TIMESTAMP_LIMIT <= secs <= TIMESTAMP_LIMIT,
{
    match chrono::DateTime::from_timestamp(secs, nanos) {
        Some(t) => Some((t.timestamp(), t.timestamp_subsec_nanos())),
        None => None,
    }
}

/// chrono's reading of `s` as a UTC instant in the strftime format `fmt`
/// (`Utc.datetime_from_str`): seconds and nanoseconds since the epoch, or
/// `None` where chrono refuses the text.
pub uninterp spec fn chrono_parse_utc(s: Seq<char>, fmt: Seq<char>) -> Option<(i64, u32)>;

/// Calls `chrono::Utc.datetime_from_str(s, fmt)` and reads the instant back
/// (`timestamp`, `timestamp_subsec_nanos`). Claimed: the result is a
/// function of `s` and `fmt` alone (the zone is UTC), named
/// `chrono_parse_utc`.
#[verifier::external_body]
pub(crate) fn parse_utc(s: &str, fmt: &str) -> (r: Option<(i64, u32)>)
    ensures
        r == chrono_parse_utc(s@, fmt@),
{
    #[allow(deprecated)]
    match chrono::TimeZone::datetime_from_str(&chrono::Utc, s, fmt) {
        Ok(t) => Some((t.timestamp(), t.timestamp_subsec_nanos())),
        Err(_) => None,
    }
}

/// chrono's RFC 3339 text (`DateTime::to_rfc3339`) of the UTC instant
/// `secs` seconds and `nanos` nanoseconds after the epoch.
pub uninterp spec fn chrono_rfc3339(secs: i64, nanos: u32) -> Seq<char>;

/// Calls `chrono::DateTime::from_timestamp(secs, nanos)` and writes the
/// instant with `to_rfc3339`. Claimed: the text is a function of `secs` and
/// `nanos` alone, named `chrono_rfc3339`; and `from_timestamp` accepts every
/// instant within 8 * 10^12 seconds of the epoch with a nanosecond part
/// below one second (those lie between the years -251600 and 255600, inside
/// chrono's -262143 to 262142).
#[verifier::external_body]
fn rfc3339_parts(secs: i64, nanos: u32) -> (r: Option<String>)
    ensures
        r matches Some(t) ==> t@ == chrono_rfc3339(secs, nanos),
        -8_000_000_000_000 <= secs <= 8_000_000_000_000 && nanos < NANOS_PER_SEC ==> r is Some,
{
    match chrono::DateTime::from_timestamp(secs, nanos) {
        Some(t) => Some(t.to_rfc3339()),
        None => None,
    }
}

/// A signed span of time: `secs` seconds plus `nanos` nanoseconds, as
/// chrono's `TimeDelta` (alias `Duration`) stores it.
#[derive(Clone, Copy, Debug, PartialEq, Eq)]
pub struct Duration {
    pub secs: i64,
    pub nanos: u32,
}

impl Duration {
    /// Within chrono's range (`i64::MAX` milliseconds either way), with a
    /// nanosecond part below one second.
    pub open spec fn wf(&self) -> bool {
        &&& self.nanos < NANOS_PER_SEC
        &&& -max_delta_nanos() <= self.total_nanos() <= max_delta_nanos()
    }

    /// The whole span in nanoseconds.
    pub open spec fn total_nanos(&self) -> int {
        self.secs * 1_000_000_000 + self.nanos
    }

    /// The span's whole seconds, rounded toward zero.
    pub open spec fn whole_seconds(&self) -> int {
        trunc_div(self.total_nanos(), 1_000_000_000)
    }

    /// The span of `secs` seconds and `nanos` nanoseconds, where chrono can
    /// hold it.
    pub fn new(secs: i64, nanos: u32) -> (r: Option<Duration>)
        ensures
            r is Some <==> (Duration { secs, nanos }).wf(),
            r matches Some(d) ==> d.secs == secs && d.nanos == nanos,
    {
        // chrono's bounds: `i64::MAX` milliseconds is `lim` seconds and
        // 807 milliseconds; its negation is `-lim - 1` seconds and 193.
        let lim: i64 = i64::MAX / 1000;
        if nanos >= NANOS_PER_SEC || secs > lim || secs < -lim - 1 {
            return None;
        }
        let d = Duration { secs, nanos };
        if secs == lim && nanos > 807_000_000 {
            return None;
        }
        if secs == -lim - 1 && nanos < 193_000_000 {
            return None;
        }
        assert(d.wf()) by (nonlinear_arith)
            requires
                d.secs == secs,
                d.nanos == nanos,
                nanos < 1_000_000_000,
                lim == 9_223_372_036_854_775,
                -lim - 1 <= secs <= lim,
                secs == lim ==> nanos <= 807_000_000,
                secs == -lim - 1 ==> nanos >= 193_000_000,
        ;
        Some(d)
    }

    /// The span of `secs` whole seconds (chrono's `TimeDelta::seconds`,
    /// which panics out of range).
    pub fn seconds(secs: i64) -> (d: Duration)
        requires
            -(i64::MAX / 1000) <= secs <= i64::MAX / 1000,
        ensures
            d.wf(),
            d.total_nanos() == secs * 1_000_000_000,
    {
        let d = Duration { secs, nanos: 0 };
        assert(d.wf()) by (nonlinear_arith)
            requires
                d.secs == secs,
                d.nanos == 0,
                -9_223_372_036_854_775 <= secs <= 9_223_372_036_854_775,
        ;
        d
    }

    /// The span of `days` whole days (chrono's `TimeDelta::days`, which
    /// panics out of range).
    pub fn days(days: i64) -> (d: Duration)
        requires
            -(i64::MAX / 1000) <= days * 86_400 <= i64::MAX / 1000,
        ensures
            d.wf(),
            d.total_nanos() == days * 86_400_000_000_000,
    {
        let d = Duration::seconds(days * 86_400);
        assert(d.total_nanos() == days * 86_400_000_000_000) by (nonlinear_arith)
            requires
                d.total_nanos() == (days * 86_400) * 1_000_000_000,
        ;
        d
    }

    /// The sum of two spans (chrono's `+`, which panics out of range).
    pub fn add(&self, rhs: &Duration) -> (d: Duration)
        requires
            self.wf(),
            rhs.wf(),
            -max_delta_nanos() <= self.total_nanos() + rhs.total_nanos() <= max_delta_nanos(),
        ensures
            d.wf(),
            d.total_nanos() == self.total_nanos() + rhs.total_nanos(),
    {
        assert(-9_223_372_036_854_776 <= self.secs <= 9_223_372_036_854_775) by (nonlinear_arith)
            requires
                -max_delta_nanos() <= self.total_nanos() <= max_delta_nanos(),
                self.nanos < 1_000_000_000,
        ;
        assert(-9_223_372_036_854_776 <= rhs.secs <= 9_223_372_036_854_775) by (nonlinear_arith)
            requires
                -max_delta_nanos() <= rhs.total_nanos() <= max_delta_nanos(),
                rhs.nanos < 1_000_000_000,
        ;
        let mut secs: i64 = self.secs + rhs.secs;
        let mut nanos: u32 = self.nanos + rhs.nanos;
        if nanos >= NANOS_PER_SEC {
            nanos = nanos - NANOS_PER_SEC;
            secs = secs + 1;
        }
        let d = Duration { secs, nanos };
        assert(d.total_nanos() == self.total_nanos() + rhs.total_nanos()) by (nonlinear_arith)
            requires
                self.nanos + rhs.nanos >= 1_000_000_000 ==> secs == self.secs + rhs.secs + 1 && nanos == self.nanos + rhs.nanos - 1_000_000_000,
                self.nanos + rhs.nanos < 1_000_000_000 ==> secs == self.secs + rhs.secs && nanos == self.nanos + rhs.nanos,
                d.secs == secs,
                d.nanos == nanos,
        ;
        d
    }

    /// The whole seconds in the span, rounded toward zero (chrono's
    /// `num_seconds`).
    pub fn num_seconds(&self) -> (r: i64)
        requires
            self.wf(),
        ensures
            r == self.whole_seconds(),
            -(i64::MAX / 1000) <= r <= i64::MAX / 1000,
    {
        proof { self.lemma_whole_seconds(); }
        if self.secs < 0 && self.nanos > 0 {
            self.secs + 1
        } else {
            self.secs
        }
    }

    proof fn lemma_whole_seconds(&self)
        requires
            self.wf(),
        ensures
            self.whole_seconds() == (if self.secs < 0 && self.nanos > 0 { self.secs + 1 } else { self.secs as int }),
            -(i64::MAX / 1000) <= self.whole_seconds() <= i64::MAX / 1000,
    {
        let t = self.total_nanos();
        if self.secs >= 0 {
            assert(t / 1_000_000_000 == self.secs) by (nonlinear_arith)
                requires
                    t == self.secs * 1_000_000_000 + self.nanos,
                    self.nanos < 1_000_000_000,
                    self.secs >= 0,
            ;
        } else if self.nanos > 0 {
            assert((-t) / 1_000_000_000 == -self.secs - 1) by (nonlinear_arith)
                requires
                    t == self.secs * 1_000_000_000 + self.nanos,
                    0 < self.nanos < 1_000_000_000,
                    self.secs < 0,
            ;
        } else {
            assert((-t) / 1_000_000_000 == -self.secs) by (nonlinear_arith)
                requires
                    t == self.secs * 1_000_000_000,
                    self.secs < 0,
            ;
        }
        assert(-(i64::MAX / 1000) <= self.whole_seconds() <= i64::MAX / 1000) by (nonlinear_arith)
            requires
                self.whole_seconds() == (if self.secs < 0 && self.nanos > 0 { self.secs + 1 } else { self.secs as int }),
                -max_delta_nanos() <= t <= max_delta_nanos(),
                t == self.secs * 1_000_000_000 + self.nanos,
                self.nanos < 1_000_000_000,
        ;
    }

    /// The whole minutes in the span, rounded toward zero.
    pub fn num_minutes(&self) -> (r: i64)
        requires
            self.wf(),
        ensures
            r == trunc_div(self.whole_seconds(), 60),
    {
        self.num_seconds() / 60
    }

    /// The whole hours in the span, rounded toward zero.
    pub fn num_hours(&self) -> (r: i64)
        requires
            self.wf(),
        ensures
            r == trunc_div(self.whole_seconds(), 3600),
    {
        self.num_seconds() / 3600
    }

    /// The whole days in the span, rounded toward zero.
    pub fn num_days(&self) -> (r: i64)
        requires
            self.wf(),
        ensures
            r == trunc_div(self.whole_seconds(), 86_400),
    {
        self.num_seconds() / 86_400
    }
}

/// The last `width` decimal digits of `n`, zero-padded on the left.
pub open spec fn padded_digits(n: nat, width: nat) -> Seq<char>
    decreases width,
{
    if width == 0 {
        Seq::empty()
    } else {
        padded_digits(n / 10, (width - 1) as nat).push(digit_char(n % 10))
    }
}

/// `s` without its trailing `'0'`s.
pub open spec fn strip_trailing_zeros(s: Seq<char>) -> Seq<char>
    decreases s.len(),
{
    if s.len() > 0 && s.last() == '0' {
        strip_trailing_zeros(s.drop_last())
    } else {
        s
    }
}

/// chrono's ISO 8601 text for the span of `secs` seconds plus `nanos`
/// nanoseconds (`0 <= nanos < 10^9`): a `-` for a negative span, then `P0D`
/// for the empty span, else `PT`, the whole seconds of the magnitude, the
/// fraction of a second without trailing zeros when there is one, and `S`.
pub open spec fn iso8601_text(secs: int, nanos: int) -> Seq<char> {
    let abs_secs: int = if secs >= 0 { secs } else if nanos == 0 { -secs } else { -secs - 1 };
    let abs_nanos: int = if secs >= 0 || nanos == 0 { nanos } else { 1_000_000_000 - nanos };
    let sign = if secs < 0 { "-"@ } else { ""@ };
    if abs_secs == 0 && abs_nanos == 0 {
        sign + "P0D"@
    } else {
        let fraction = if abs_nanos > 0 {
            "."@ + strip_trailing_zeros(padded_digits(abs_nanos as nat, 9))
        } else {
            ""@
        };
        sign + "PT"@ + nat_decimal(abs_secs as nat) + fraction + "S"@
    }
}

/// The ISO 8601 text of a span of `total` nanoseconds.
pub open spec fn iso8601_of_nanos(total: int) -> Seq<char> {
    iso8601_text(total / 1_000_000_000, total % 1_000_000_000)
}

impl Duration {
    /// A span's parts are its total's floor quotient and remainder by one
    /// second.
    pub proof fn lemma_parts(&self)
        requires
            self.wf(),
        ensures
            self.secs == self.total_nanos() / 1_000_000_000,
            self.nanos == self.total_nanos() % 1_000_000_000,
    {
        let t = self.total_nanos();
        assert(t / 1_000_000_000 == self.secs && t % 1_000_000_000 == self.nanos) by (nonlinear_arith)
            requires
                t == self.secs * 1_000_000_000 + self.nanos,
                0 <= self.nanos < 1_000_000_000,
        ;
    }
}

/// Calls chrono's `Display` for `TimeDelta` on the span `d`. Claimed, as the
/// source of chrono 0.4.45 (`impl fmt::Display for TimeDelta`) writes it: a
/// `-` when `secs < 0`, the magnitude being chrono's negation; `P0D` for the
/// zero span; else `PT`, the magnitude's seconds, a `.` and the nanoseconds
/// as nine digits with trailing zeros removed when they are not zero, and
/// `S`. `TimeDelta::new` holds every span that satisfies `wf`.
#[verifier::external_body]
pub(crate) fn iso8601(d: Duration) -> (r: String)
    requires
        d.wf(),
    ensures
        r@ == iso8601_text(d.secs as int, d.nanos as int),
{
    format!("{}", chrono::TimeDelta::new(d.secs, d.nanos).unwrap())
}

} // verus!
