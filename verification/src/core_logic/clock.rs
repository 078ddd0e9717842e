use vstd::prelude::*;
use chrono::Datelike;
use chrono::Timelike;
use crate::utils::text::two_digits;

verus! {

/// A time of day in chrono's `NaiveTime` representation: the whole seconds since midnight and a
/// fraction in nanoseconds, which reaches past one second only inside a leap second (the last
/// second of a minute).
#[derive(Clone, Copy, Debug, PartialEq, Eq, Structural)]
pub struct TimeOfDay {
    pub secs: u32,
    pub frac: u32,
}

/// A calendar date (proleptic Gregorian), as chrono's `NaiveDate` names it.
#[derive(Clone, Copy, Debug, PartialEq, Eq, Structural)]
pub struct CalendarDate {
    pub year: i32,
    pub month: u32,
    pub day: u32,
}

/// The values that `NaiveTime` admits for its seconds and fraction.
pub open spec fn valid_time_parts(secs: u32, frac: u32) -> bool {
    &&& secs < 86_400
    &&& frac < 2_000_000_000
    &&& frac >= 1_000_000_000 ==> secs % 60 == 59
}

/// Integer division that rounds toward zero, as Rust's `/` on signed integers.
pub open spec fn trunc_div(a: int, b: int) -> int {
    if a >= 0 {
        a / b
    } else {
        -((-a) / b)
    }
}

/// The signed length in nanoseconds of the span from `from` to `to`, counting a leap second
/// that lies between them.
pub open spec fn duration_nanos(from: TimeOfDay, to: TimeOfDay) -> int {
    let leap: int = if to.secs > from.secs && from.frac >= 1_000_000_000 {
        1
    } else if to.secs < from.secs && to.frac >= 1_000_000_000 {
        -1
    } else {
        0
    };
    (to.secs - from.secs + leap) * 1_000_000_000 + (to.frac - from.frac)
}

/// Whole minutes from `from` to `to`, rounded toward zero (negative when `to` is earlier).
pub open spec fn minutes_between(from: TimeOfDay, to: TimeOfDay) -> int {
    trunc_div(duration_nanos(from, to), 60_000_000_000)
}

impl CalendarDate {
    /// A month of the year and a day of the month.
    pub open spec fn wf(self) -> bool {
        1 <= self.month <= 12 && 1 <= self.day <= 31
    }
}

impl TimeOfDay {
    pub open spec fn wf(self) -> bool {
        valid_time_parts(self.secs, self.frac)
    }

    /// `self` comes strictly before `other` in the day.
    pub open spec fn precedes(self, other: TimeOfDay) -> bool {
        self.secs < other.secs || (self.secs == other.secs && self.frac < other.frac)
    }

    pub open spec fn hour(self) -> int {
        (self.secs / 3600) as int
    }

    pub open spec fn minute(self) -> int {
        ((self.secs / 60) % 60) as int
    }

    /// The second as a clock shows it: 60 inside a leap second.
    pub open spec fn shown_second(self) -> int {
        (self.secs % 60) as int + (self.frac / 1_000_000_000) as int
    }

    /// The time of day `secs` seconds and `frac` nanoseconds after midnight, where that is a
    /// valid time.
    pub fn from_num_seconds_from_midnight_opt(secs: u32, frac: u32) -> (res: Option<TimeOfDay>)
        ensures
            res == (if valid_time_parts(secs, frac) {
                Some(TimeOfDay { secs, frac })
            } else {
                None
            }),
    {
        if secs >= 86_400 || frac >= 2_000_000_000 || (frac >= 1_000_000_000 && secs % 60 != 59) {
            None
        } else {
            Some(TimeOfDay { secs, frac })
        }
    }

    /// The time `hour:min:sec`, where each lies in its range.
    pub fn from_hms_opt(hour: u32, min: u32, sec: u32) -> (res: Option<TimeOfDay>)
        ensures
            res == (if hour < 24 && min < 60 && sec < 60 {
                Some(TimeOfDay { secs: (hour * 3600 + min * 60 + sec) as u32, frac: 0 })
            } else {
                None
            }),
            res matches Some(t) ==> t.wf(),
    {
        if hour >= 24 || min >= 60 || sec >= 60 {
            None
        } else {
            Some(TimeOfDay { secs: hour * 3600 + min * 60 + sec, frac: 0 })
        }
    }

    /// The parts form a valid time of day.
    pub fn is_valid(&self) -> (b: bool)
        ensures
            b == self.wf(),
    {
        self.secs < 86_400 && self.frac < 2_000_000_000 && (self.frac < 1_000_000_000 || self.secs % 60 == 59)
    }

    /// Strictly earlier than `other`.
    pub fn is_before(&self, other: &TimeOfDay) -> (b: bool)
        ensures
            b == self.precedes(*other),
    {
        self.secs < other.secs || (self.secs == other.secs && self.frac < other.frac)
    }
}

/// Calls chrono's `NaiveTime - NaiveTime` (that is `NaiveTime::signed_duration_since`) and
/// `TimeDelta::num_minutes` on the two times. Claimed: the result is the span in whole minutes,
/// rounded toward zero, with a leap second between the two counted as chrono's source counts it.
#[verifier::external_body]
pub(crate) fn chrono_minutes_between(from: TimeOfDay, to: TimeOfDay) -> (res: i64)
    requires
        from.wf(),
        to.wf(),
    ensures
        res == minutes_between(from, to),
{
    let a = chrono::NaiveTime::from_num_seconds_from_midnight_opt(from.secs, from.frac);
    let b = chrono::NaiveTime::from_num_seconds_from_midnight_opt(to.secs, to.frac);
    (b.expect("valid time") - a.expect("valid time")).num_minutes()
}

/// Calls chrono's `Local::now()` and takes the local date (`date_naive`: year, month, day) and
/// the local time of day (`time`: seconds from midnight, nanoseconds). Claimed: only that the
/// parts are those of a valid date and a valid `NaiveTime`; which instant it is, is not stated.
#[verifier::external_body]
fn chrono_local_now() -> (res: (i32, u32, u32, u32, u32))
    ensures
        1 <= res.1 <= 12,
        1 <= res.2 <= 31,
        valid_time_parts(res.3, res.4),
{
    let now = chrono::Local::now();
    let date = now.date_naive();
    let time = now.time();
    (date.year(), date.month(), date.day(), time.num_seconds_from_midnight(), time.nanosecond())
}

/// The local time of day, read from the system clock.
pub fn current_time() -> (t: TimeOfDay)
    ensures
        t.wf(),
{
    let (_, _, _, secs, frac) = chrono_local_now();
    TimeOfDay { secs, frac }
}

/// The local date, read from the system clock.
pub fn current_date() -> (d: CalendarDate)
    ensures
        d.wf(),
{
    let (year, month, day, _, _) = chrono_local_now();
    CalendarDate { year, month, day }
}

/// chrono's `%H:%M` pattern.
pub open spec fn hm_pattern() -> Seq<char> {
    seq!['%', 'H', ':', '%', 'M']
}

/// chrono's `%H:%M:%S` pattern.
pub open spec fn hms_pattern() -> Seq<char> {
    seq!['%', 'H', ':', '%', 'M', ':', '%', 'S']
}

/// `t` written as `HH:MM`, zero-padded.
pub open spec fn hm_text(t: TimeOfDay) -> Seq<char> {
    two_digits(t.hour()) + seq![':'] + two_digits(t.minute())
}

/// `t` written as `HH:MM:SS`, zero-padded (the seconds read 60 inside a leap second).
pub open spec fn hms_text(t: TimeOfDay) -> Seq<char> {
    hm_text(t) + seq![':'] + two_digits(t.shown_second())
}

/// The whole-second time of day whose `HH:MM:SS` text is `text`, if there is one.
pub open spec fn whole_second_time_of(text: Seq<char>) -> Option<TimeOfDay> {
    if exists|t: TimeOfDay| t.wf() && t.frac == 0 && hms_text(t) == text {
        Some(choose|t: TimeOfDay| t.wf() && t.frac == 0 && hms_text(t) == text)
    } else {
        None
    }
}

/// Two whole-second times with the same `HH:MM:SS` text are the same time.
pub proof fn lemma_hms_text_injective(a: TimeOfDay, b: TimeOfDay)
    requires
        a.wf(),
        b.wf(),
        a.frac == 0,
        b.frac == 0,
        hms_text(a) == hms_text(b),
    ensures
        a == b,
{
    let ta = hms_text(a);
    let tb = hms_text(b);
    assert(ta[0] == tb[0] && ta[1] == tb[1] && ta[3] == tb[3] && ta[4] == tb[4]);
    assert(ta[6] == tb[6] && ta[7] == tb[7]);
    lemma_two_digits_injective(a.hour(), b.hour(), ta[0], ta[1], tb[0], tb[1]);
    lemma_two_digits_injective(a.minute(), b.minute(), ta[3], ta[4], tb[3], tb[4]);
    lemma_two_digits_injective(a.shown_second(), b.shown_second(), ta[6], ta[7], tb[6], tb[7]);
    assert(a.secs == a.hour() * 3600 + a.minute() * 60 + a.shown_second());
    assert(b.secs == b.hour() * 3600 + b.minute() * 60 + b.shown_second());
}

proof fn lemma_two_digits_injective(x: int, y: int, x0: char, x1: char, y0: char, y1: char)
    requires
        0 <= x < 100,
        0 <= y < 100,
        two_digits(x) == seq![x0, x1],
        two_digits(y) == seq![y0, y1],
        x0 == y0,
        x1 == y1,
    ensures
        x == y,
{
    assert(two_digits(x)[0] == two_digits(y)[0]);
    assert(two_digits(x)[1] == two_digits(y)[1]);
    assert(x / 10 == y / 10);
    assert(x % 10 == y % 10);
}

/// What chrono's `NaiveTime::parse_from_str(text, fmt)` gives back: the seconds from midnight
/// and the nanoseconds of the parsed time, or nothing where it reports an error.
pub uninterp spec fn chrono_parsed_time(text: Seq<char>, fmt: Seq<char>) -> Option<(u32, u32)>;

#[verifier::external_type_specification]
#[verifier::external_body]
pub struct ExParseError(chrono::format::ParseError);

/// Calls chrono's `NaiveTime::format(fmt)` and renders it with `to_string`. Claimed, for the
/// two patterns the library uses: `%H` and `%M` are the hour and minute as two zero-padded
/// digits, `%S` the second likewise, reading 60 inside a leap second.
#[verifier::external_body]
pub(crate) fn chrono_format(t: TimeOfDay, fmt: &str) -> (res: String)
    requires
        t.wf(),
        fmt@ == hm_pattern() || fmt@ == hms_pattern(),
    ensures
        fmt@ == hm_pattern() ==> res@ == hm_text(t),
        fmt@ == hms_pattern() ==> res@ == hms_text(t),
{
    let time = chrono::NaiveTime::from_num_seconds_from_midnight_opt(t.secs, t.frac);
    time.expect("valid time").format(fmt).to_string()
}

/// Calls chrono's `NaiveTime::parse_from_str(text, fmt)` and takes the parsed time apart into
/// seconds from midnight and nanoseconds of a `TimeOfDay`. Claimed: the result is the named
/// `chrono_parsed_time`, the parts are those of a valid `NaiveTime`, and with the pattern
/// `%H:%M:%S` the zero-padded text of a whole-second time parses back to that time.
#[verifier::external_body]
pub(crate) fn chrono_parse(text: &str, fmt: &str) -> (res: Result<TimeOfDay, chrono::format::ParseError>)
    ensures
        res is Ok <==> chrono_parsed_time(text@, fmt@) is Some,
        res matches Ok(t) ==> (chrono_parsed_time(text@, fmt@) == Some((t.secs, t.frac)) && t.wf()),
        fmt@ == hms_pattern() && whole_second_time_of(text@) is Some ==> res is Ok && res->Ok_0 == whole_second_time_of(text@).unwrap(),
{
    match chrono::NaiveTime::parse_from_str(text, fmt) {
        Ok(time) => Ok(TimeOfDay { secs: time.num_seconds_from_midnight(), frac: time.nanosecond() }),
        Err(e) => Err(e),
    }
}

} // verus!
