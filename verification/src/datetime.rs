//! Calendar values for the time filters and the digit-wheel editor.
//!
//! A time field holds text in the shape `YYYY-MM-DD HH:MM:SS`. While it is
//! edited group by group, the value is staged as [`DateTimeParts`]; each group
//! is clamped on its own, with no carry into its neighbours.

use chrono::{Datelike, TimeZone, Timelike};
use vstd::prelude::*;

verus! {

/// An instant on the UTC time line: whole seconds since the Unix epoch and
/// the nanoseconds into that second.
#[derive(Clone, Copy, Debug, PartialEq, Eq, Structural)]
pub struct Timestamp {
    pub secs: i64,
    pub nanos: u32,
}

impl Timestamp {
    /// `self` lies strictly before `other`.
    pub open spec fn before(self, other: Timestamp) -> bool {
        self.secs < other.secs || (self.secs == other.secs && self.nanos < other.nanos)
    }

    /// Tells whether `self` lies strictly before `other`.
    pub fn is_before(&self, other: &Timestamp) -> (r: bool)
        ensures
            r == self.before(*other),
    {
        self.secs < other.secs || (self.secs == other.secs && self.nanos < other.nanos)
    }
}

/// The six groups of a calendar date and time of day.
#[derive(Clone, Copy, Debug, PartialEq, Eq, Structural)]
pub struct DateTimeParts {
    pub year: i32,
    pub month: u32,
    pub day: u32,
    pub hour: u32,
    pub minute: u32,
    pub second: u32,
}

/// The group of a time field that the digit wheel acts on.
#[derive(Clone, Copy, Debug, PartialEq, Eq, Structural)]
pub enum TimeEditPosition {
    Year,
    Month,
    Day,
    Hour,
    Minute,
    Second,
}

/// Earliest year a calendar value may carry.
pub const MIN_YEAR: i32 = -262143;

/// Latest year a calendar value may carry.
pub const MAX_YEAR: i32 = 262142;

/// Gregorian leap-year rule.
pub open spec fn is_leap_year(year: int) -> bool {
    year % 4 == 0 && (year % 100 != 0 || year % 400 == 0)
}

/// Number of days of a month; 0 for a month outside 1..=12.
pub open spec fn days_in_month(year: int, month: int) -> int {
    if month == 1 || month == 3 || month == 5 || month == 7 || month == 8 || month == 10 || month
        == 12 {
        31
    } else if month == 4 || month == 6 || month == 9 || month == 11 {
        30
    } else if month == 2 {
        if is_leap_year(year) {
            29
        } else {
            28
        }
    } else {
        0
    }
}

/// The text shape of a time field, in the notation of the date library.
pub open spec fn datetime_format() -> Seq<char> {
    "%Y-%m-%d %H:%M:%S"@
}

/// A number below a hundred in two digits.
pub open spec fn two_digits(n: int) -> Seq<char> {
    seq![crate::text::digit_char((n / 10) as nat), crate::text::digit_char((n % 10) as nat)]
}

/// A number below ten thousand in four digits.
pub open spec fn four_digits(n: int) -> Seq<char> {
    two_digits(n / 100) + two_digits(n % 100)
}

/// The text of a calendar value of the years 0 to 9999 in the shape of a
/// time field: `YYYY-MM-DD HH:MM:SS`, every group filled with zeros.
pub open spec fn civil_text(parts: DateTimeParts) -> Seq<char> {
    four_digits(parts.year as int) + seq!['-'] + two_digits(parts.month as int) + seq!['-']
        + two_digits(parts.day as int) + seq![' '] + two_digits(parts.hour as int) + seq![':']
        + two_digits(parts.minute as int) + seq![':'] + two_digits(parts.second as int)
}

/// The text that a time field shows for a calendar value: for the years 0
/// to 9999 the shape `YYYY-MM-DD HH:MM:SS`; for any other year whatever the
/// date library writes.
pub open spec fn written(parts: DateTimeParts) -> Seq<char> {
    if 0 <= parts.year <= 9999 {
        civil_text(parts)
    } else {
        formatted_datetime(parts, datetime_format())
    }
}

/// The text is what a clock could have put into a time field: it is empty,
/// or it is the text of a calendar value.
pub open spec fn is_clock_text(text: Seq<char>) -> bool {
    text.len() == 0 || exists|parts: DateTimeParts|
        parts.is_valid() && #[trigger] written(parts) == text
}

/// The usable part of a clock's reading: the reading itself if it shows a
/// day that exists and a time of day, else nothing.
pub open spec fn usable(shown: Option<DateTimeParts>) -> Option<DateTimeParts> {
    match shown {
        Some(parts) => if parts.is_valid() {
            Some(parts)
        } else {
            None
        },
        None => None,
    }
}

/// The text that a time field starts with when the clock gave `now`.
pub open spec fn text_of_reading(now: Option<DateTimeParts>) -> Seq<char> {
    match now {
        Some(parts) => written(parts),
        None => Seq::empty(),
    }
}

/// The value that the text of a time field seeds the digit wheel with:
/// what the text reads as, if it is not empty and reads as a date.
pub open spec fn seed_of(text: Seq<char>) -> Option<DateTimeParts> {
    if text.len() > 0 {
        parsed_datetime(text, datetime_format())
    } else {
        None
    }
}

/// The value that is staged when the digit wheel is entered on a field
/// with this text while the local clock shows `now`: the seed of the text,
/// else what the clock shows.
pub open spec fn staged_on_entry(text: Seq<char>, now: Option<DateTimeParts>) -> Option<
    DateTimeParts,
> {
    match seed_of(text) {
        Some(parts) => Some(parts),
        None => now,
    }
}

/// The text of the field once the digit wheel is entered: the text stays
/// if it seeds the wheel; else the field shows what the clock shows, if the
/// clock shows anything.
pub open spec fn text_on_entry(text: Seq<char>, now: Option<DateTimeParts>) -> Seq<char> {
    match (seed_of(text), now) {
        (None, Some(shown)) => written(shown),
        _ => text,
    }
}

/// What the date library reads out of `text` under `format`: the six
/// groups, or nothing when the text does not fit.
pub uninterp spec fn parsed_datetime(text: Seq<char>, format: Seq<char>) -> Option<DateTimeParts>;

/// The text that the date library writes for `parts` under `format`.
pub uninterp spec fn formatted_datetime(parts: DateTimeParts, format: Seq<char>) -> Seq<char>;

/// The instant at which a clock on UTC shows `parts`.
pub uninterp spec fn utc_instant_of(parts: DateTimeParts) -> Timestamp;

impl DateTimeParts {
    /// The groups name a day that exists and a time of day.
    pub open spec fn is_valid(self) -> bool {
        &&& MIN_YEAR <= self.year <= MAX_YEAR
        &&& 1 <= self.month <= 12
        &&& 1 <= self.day <= days_in_month(self.year as int, self.month as int)
        &&& self.hour <= 23
        &&& self.minute <= 59
        &&& self.second <= 59
    }

    /// The value of one group.
    pub open spec fn group(self, position: TimeEditPosition) -> int {
        match position {
            TimeEditPosition::Year => self.year as int,
            TimeEditPosition::Month => self.month as int,
            TimeEditPosition::Day => self.day as int,
            TimeEditPosition::Hour => self.hour as int,
            TimeEditPosition::Minute => self.minute as int,
            TimeEditPosition::Second => self.second as int,
        }
    }

    /// `self` with one group replaced; `value` must fit the group's type.
    pub open spec fn with_group(self, position: TimeEditPosition, value: int) -> DateTimeParts {
        match position {
            TimeEditPosition::Year => DateTimeParts { year: value as i32, ..self },
            TimeEditPosition::Month => DateTimeParts { month: value as u32, ..self },
            TimeEditPosition::Day => DateTimeParts { day: value as u32, ..self },
            TimeEditPosition::Hour => DateTimeParts { hour: value as u32, ..self },
            TimeEditPosition::Minute => DateTimeParts { minute: value as u32, ..self },
            TimeEditPosition::Second => DateTimeParts { second: value as u32, ..self },
        }
    }

    /// The result of turning the wheel of one group by `delta`: the group
    /// moves when its new value is within the group's bounds and the day
    /// still exists, and nothing moves otherwise.
    pub open spec fn adjusted(self, position: TimeEditPosition, delta: int) -> DateTimeParts {
        let value = self.group(position) + delta;
        let moved = self.with_group(position, value);
        if position.admits(value) && moved.is_valid() {
            moved
        } else {
            self
        }
    }

    /// Tells whether the groups name a day that exists and a time of day.
    pub fn check_valid(&self) -> (ok: bool)
        ensures
            ok == self.is_valid(),
    {
        if self.year < MIN_YEAR || self.year > MAX_YEAR {
            return false;
        }
        if self.month < 1 || self.month > 12 || self.day < 1 {
            return false;
        }
        let leap: bool = self.year % 4 == 0 && (self.year % 100 != 0 || self.year % 400 == 0);
        let month: u32 = self.month;
        let days: u32 = if month == 2 {
            if leap {
                29
            } else {
                28
            }
        } else if month == 4 || month == 6 || month == 9 || month == 11 {
            30
        } else {
            31
        };
        assert(leap == is_leap_year(self.year as int)) by {
            lemma_signed_remainders(self.year as int);
        }
        self.day <= days && self.hour <= 23 && self.minute <= 59 && self.second <= 59
    }

    /// Turns the wheel of one group by `delta`.
    pub fn adjust(self, position: TimeEditPosition, delta: i32) -> (out: DateTimeParts)
        requires
            self.is_valid(),
        ensures
            out == self.adjusted(position, delta as int),
            out.is_valid(),
    {
        let current: i64 = match position {
            TimeEditPosition::Year => self.year as i64,
            TimeEditPosition::Month => self.month as i64,
            TimeEditPosition::Day => self.day as i64,
            TimeEditPosition::Hour => self.hour as i64,
            TimeEditPosition::Minute => self.minute as i64,
            TimeEditPosition::Second => self.second as i64,
        };
        let value: i64 = current + delta as i64;
        if !position.accepts(value) {
            return self;
        }
        let moved: DateTimeParts = match position {
            TimeEditPosition::Year => DateTimeParts { year: value as i32, ..self },
            TimeEditPosition::Month => DateTimeParts { month: value as u32, ..self },
            TimeEditPosition::Day => DateTimeParts { day: value as u32, ..self },
            TimeEditPosition::Hour => DateTimeParts { hour: value as u32, ..self },
            TimeEditPosition::Minute => DateTimeParts { minute: value as u32, ..self },
            TimeEditPosition::Second => DateTimeParts { second: value as u32, ..self },
        };
        if moved.check_valid() {
            moved
        } else {
            self
        }
    }
}

impl TimeEditPosition {
    /// The bounds of a group: years 1970 to 9999, months 1 to 12, days 1 to
    /// 31, hours 0 to 23, minutes and seconds 0 to 59.
    pub open spec fn admits(self, value: int) -> bool {
        match self {
            TimeEditPosition::Year => 1970 <= value <= 9999,
            TimeEditPosition::Month => 1 <= value <= 12,
            TimeEditPosition::Day => 1 <= value <= 31,
            TimeEditPosition::Hour => 0 <= value <= 23,
            TimeEditPosition::Minute => 0 <= value <= 59,
            TimeEditPosition::Second => 0 <= value <= 59,
        }
    }

    /// The group to the right, wrapping from seconds to years.
    pub open spec fn following(self) -> TimeEditPosition {
        match self {
            TimeEditPosition::Year => TimeEditPosition::Month,
            TimeEditPosition::Month => TimeEditPosition::Day,
            TimeEditPosition::Day => TimeEditPosition::Hour,
            TimeEditPosition::Hour => TimeEditPosition::Minute,
            TimeEditPosition::Minute => TimeEditPosition::Second,
            TimeEditPosition::Second => TimeEditPosition::Year,
        }
    }

    /// The group to the left, wrapping from years to seconds.
    pub open spec fn preceding(self) -> TimeEditPosition {
        match self {
            TimeEditPosition::Year => TimeEditPosition::Second,
            TimeEditPosition::Month => TimeEditPosition::Year,
            TimeEditPosition::Day => TimeEditPosition::Month,
            TimeEditPosition::Hour => TimeEditPosition::Day,
            TimeEditPosition::Minute => TimeEditPosition::Hour,
            TimeEditPosition::Second => TimeEditPosition::Minute,
        }
    }

    /// Column, within a time field, at which the cursor marks this group.
    pub open spec fn column(self) -> int {
        match self {
            TimeEditPosition::Year => 2,
            TimeEditPosition::Month => 6,
            TimeEditPosition::Day => 9,
            TimeEditPosition::Hour => 12,
            TimeEditPosition::Minute => 15,
            TimeEditPosition::Second => 18,
        }
    }

    /// Tells whether `value` is within the bounds of this group.
    pub fn accepts(self, value: i64) -> (ok: bool)
        ensures
            ok == self.admits(value as int),
    {
        match self {
            TimeEditPosition::Year => 1970 <= value && value <= 9999,
            TimeEditPosition::Month => 1 <= value && value <= 12,
            TimeEditPosition::Day => 1 <= value && value <= 31,
            TimeEditPosition::Hour => 0 <= value && value <= 23,
            TimeEditPosition::Minute => 0 <= value && value <= 59,
            TimeEditPosition::Second => 0 <= value && value <= 59,
        }
    }

    /// The group to the right.
    pub fn next(self) -> (out: TimeEditPosition)
        ensures
            out == self.following(),
    {
        match self {
            TimeEditPosition::Year => TimeEditPosition::Month,
            TimeEditPosition::Month => TimeEditPosition::Day,
            TimeEditPosition::Day => TimeEditPosition::Hour,
            TimeEditPosition::Hour => TimeEditPosition::Minute,
            TimeEditPosition::Minute => TimeEditPosition::Second,
            TimeEditPosition::Second => TimeEditPosition::Year,
        }
    }

    /// The group to the left.
    pub fn prev(self) -> (out: TimeEditPosition)
        ensures
            out == self.preceding(),
    {
        match self {
            TimeEditPosition::Year => TimeEditPosition::Second,
            TimeEditPosition::Month => TimeEditPosition::Year,
            TimeEditPosition::Day => TimeEditPosition::Month,
            TimeEditPosition::Hour => TimeEditPosition::Day,
            TimeEditPosition::Minute => TimeEditPosition::Hour,
            TimeEditPosition::Second => TimeEditPosition::Minute,
        }
    }

    /// Column, within a time field, at which the cursor marks this group.
    pub fn cursor_column(self) -> (col: u16)
        ensures
            col as int == self.column(),
    {
        match self {
            TimeEditPosition::Year => 2,
            TimeEditPosition::Month => 6,
            TimeEditPosition::Day => 9,
            TimeEditPosition::Hour => 12,
            TimeEditPosition::Minute => 15,
            TimeEditPosition::Second => 18,
        }
    }
}

/// Executable remainders round towards zero and mathematical ones do not;
/// for the divisors of the leap-year rule both are zero together.
proof fn lemma_signed_remainders(year: int)
    requires
        MIN_YEAR <= year <= MAX_YEAR,
    ensures
        ((year as i32) % 4i32 == 0) == (year % 4 == 0),
        ((year as i32) % 100i32 == 0) == (year % 100 == 0),
        ((year as i32) % 400i32 == 0) == (year % 400 == 0),
{
}

/// Wraps `NaiveDateTime::parse_from_str` of chrono and reads the six groups
/// off what it returns; the result is only named. Beside the name it is
/// claimed that the groups of a parsed value name an existing day and a
/// time of day.
#[verifier::external_body]
pub(crate) fn parse_datetime(text: &str, format: &str) -> (parts: Option<DateTimeParts>)
    ensures
        parts == parsed_datetime(text@, format@),
        parts is Some ==> parts->0.is_valid(),
{
    match chrono::NaiveDateTime::parse_from_str(text, format) {
        Ok(t) => Some(
            DateTimeParts {
                year: t.year(),
                month: t.month(),
                day: t.day(),
                hour: t.hour(),
                minute: t.minute(),
                second: t.second(),
            },
        ),
        Err(_) => None,
    }
}

/// Wraps `NaiveDateTime::format` of chrono for the one format whose items
/// every calendar value can be written with. The text is named; for the
/// years 0 to 9999, which the library writes in four digits without a sign,
/// it is spelled out as [`civil_text`].
#[verifier::external_body]
pub(crate) fn format_datetime(parts: DateTimeParts, format: &str) -> (text: String)
    requires
        parts.is_valid(),
        format@ == datetime_format(),
    ensures
        text@ == formatted_datetime(parts, format@),
        0 <= parts.year <= 9999 ==> text@ == civil_text(parts),
{
    let date = chrono::NaiveDate::from_ymd_opt(parts.year, parts.month, parts.day).unwrap();
    let time = date.and_hms_opt(parts.hour, parts.minute, parts.second).unwrap();
    time.format(format).to_string()
}

/// Wraps `NaiveDateTime::and_utc` of chrono: the instant at which UTC shows
/// the given groups; the instant is only named, not described.
#[verifier::external_body]
pub(crate) fn utc_instant(parts: DateTimeParts) -> (instant: Timestamp)
    requires
        parts.is_valid(),
    ensures
        instant == utc_instant_of(parts),
{
    let date = chrono::NaiveDate::from_ymd_opt(parts.year, parts.month, parts.day).unwrap();
    let time = date.and_hms_opt(parts.hour, parts.minute, parts.second).unwrap().and_utc();
    Timestamp { secs: time.timestamp(), nanos: time.timestamp_subsec_nanos() }
}

/// Wraps `TimeZone::from_local_datetime` of chrono on the machine's own time
/// zone: the instant at which a local clock shows the given groups, or
/// nothing when no single instant does. The answer depends on the machine,
/// and nothing is claimed of it.
#[verifier::external_body]
pub(crate) fn local_instant(parts: DateTimeParts) -> (instant: Option<Timestamp>)
    requires
        parts.is_valid(),
{
    let date = chrono::NaiveDate::from_ymd_opt(parts.year, parts.month, parts.day).unwrap();
    let time = date.and_hms_opt(parts.hour, parts.minute, parts.second).unwrap();
    match chrono::Local.from_local_datetime(&time).single() {
        Some(t) => Some(Timestamp { secs: t.timestamp(), nanos: t.timestamp_subsec_nanos() }),
        None => None,
    }
}

/// Wraps `Local::now` of chrono, moved by a number of days with
/// `DateTime::checked_add_signed`: what a local clock shows that many days
/// from now, or nothing when that lies outside the calendar. The answer
/// depends on the machine, and nothing is claimed of it.
#[verifier::external_body]
pub(crate) fn local_clock_after_days(days: i64) -> (parts: Option<DateTimeParts>)
{
    let t = chrono::Local::now().checked_add_signed(chrono::TimeDelta::try_days(days)?)?;
    Some(
        DateTimeParts {
            year: t.year(),
            month: t.month(),
            day: t.day(),
            hour: t.hour(),
            minute: t.minute(),
            second: t.second(),
        },
    )
}

/// Wraps `Utc::now` of chrono: the present instant. Nothing is claimed of
/// it.
#[verifier::external_body]
pub(crate) fn utc_now() -> (instant: Timestamp)
{
    let t = chrono::Utc::now();
    Timestamp { secs: t.timestamp(), nanos: t.timestamp_subsec_nanos() }
}

/// Writes a calendar value as a time field shows it.
pub fn write_datetime(parts: DateTimeParts) -> (text: String)
    requires
        parts.is_valid(),
    ensures
        text@ == written(parts),
{
    format_datetime(parts, "%Y-%m-%d %H:%M:%S")
}

/// A reading of a clock as far as the library uses it: the reading itself
/// if it shows a day that exists and a time of day, else nothing.
pub fn usable_reading(shown: Option<DateTimeParts>) -> (parts: Option<DateTimeParts>)
    ensures
        parts == usable(shown),
{
    match shown {
        Some(parts) => if parts.check_valid() {
            Some(parts)
        } else {
            None
        },
        None => None,
    }
}

/// The text that a time field starts with when the clock gave `now`: the
/// value written out, or nothing where the clock gave nothing.
pub fn write_reading(now: Option<DateTimeParts>) -> (text: String)
    requires
        now is Some ==> now->0.is_valid(),
    ensures
        text@ == text_of_reading(now),
        is_clock_text(text@),
{
    match now {
        Some(parts) => write_datetime(parts),
        None => String::new(),
    }
}

/// What a local clock shows `days` days from now, if the clock can be read
/// and shows a day that exists and a time of day: the usable part of
/// whatever the clock gave.
pub fn local_clock(days: i64) -> (parts: Option<DateTimeParts>)
    ensures
        parts is Some ==> parts->0.is_valid(),
{
    usable_reading(local_clock_after_days(days))
}

/// The text that a time field starts with: what a local clock shows `days`
/// days from now, written out, or nothing if the clock cannot be read.
pub fn clock_text(days: i64) -> (text: String)
    ensures
        is_clock_text(text@),
{
    write_reading(local_clock(days))
}

/// The text of a calendar value of the years 0 to 9999 has nineteen
/// characters, with the separators at their fixed places.
pub proof fn lemma_civil_text_shape(parts: DateTimeParts)
    ensures
        civil_text(parts).len() == 19,
        civil_text(parts)[4] == '-',
        civil_text(parts)[7] == '-',
        civil_text(parts)[10] == ' ',
        civil_text(parts)[13] == ':',
        civil_text(parts)[16] == ':',
        civil_text(parts).subrange(0, 4) == four_digits(parts.year as int),
        civil_text(parts).subrange(5, 7) == two_digits(parts.month as int),
        civil_text(parts).subrange(8, 10) == two_digits(parts.day as int),
        civil_text(parts).subrange(11, 13) == two_digits(parts.hour as int),
        civil_text(parts).subrange(14, 16) == two_digits(parts.minute as int),
        civil_text(parts).subrange(17, 19) == two_digits(parts.second as int),
{
    let text = civil_text(parts);
    assert(two_digits(parts.month as int).len() == 2);
    assert(four_digits(parts.year as int).len() == 4);
    assert(text.len() == 19);
    assert(text.subrange(0, 4) =~= four_digits(parts.year as int));
    assert(text.subrange(5, 7) =~= two_digits(parts.month as int));
    assert(text.subrange(8, 10) =~= two_digits(parts.day as int));
    assert(text.subrange(11, 13) =~= two_digits(parts.hour as int));
    assert(text.subrange(14, 16) =~= two_digits(parts.minute as int));
    assert(text.subrange(17, 19) =~= two_digits(parts.second as int));
}

/// The text of a calendar value of the years 0 to 9999 fills the nineteen
/// places of a time field, and turning the wheel on a value of the years
/// 1970 to 9999 gives such a value again.
pub proof fn lemma_written_fills_the_field(
    parts: DateTimeParts,
    position: TimeEditPosition,
    delta: int,
)
    requires
        0 <= parts.year <= 9999,
    ensures
        written(parts).len() == 19,
        1970 <= parts.year ==> 1970 <= parts.adjusted(position, delta).year <= 9999,
        1970 <= parts.year ==> written(parts.adjusted(position, delta)).len() == 19,
{
    lemma_civil_text_shape(parts);
    lemma_civil_text_shape(parts.adjusted(position, delta));
}

/// Adjusting a group by a delta that would leave the group's bounds leaves
/// every group as it was.
pub proof fn lemma_out_of_bounds_delta_is_dropped(
    parts: DateTimeParts,
    position: TimeEditPosition,
    delta: int,
)
    requires
        !position.admits(parts.group(position) + delta),
    ensures
        parts.adjusted(position, delta) == parts,
{
}

/// Adjusting one group never changes another.
pub proof fn lemma_adjust_touches_one_group(
    parts: DateTimeParts,
    position: TimeEditPosition,
    delta: int,
    other: TimeEditPosition,
)
    requires
        other != position,
    ensures
        parts.adjusted(position, delta).group(other) == parts.group(other),
{
}

/// A group that moved holds exactly its old value plus the delta, within
/// its bounds.
pub proof fn lemma_adjust_moves_by_delta(
    parts: DateTimeParts,
    position: TimeEditPosition,
    delta: int,
)
    requires
        parts.adjusted(position, delta) != parts,
    ensures
        parts.adjusted(position, delta).group(position) == parts.group(position) + delta,
        position.admits(parts.group(position) + delta),
{
}

/// Stepping right then left, or left then right, returns to the same group.
pub proof fn lemma_positions_cycle(position: TimeEditPosition)
    ensures
        position.following().preceding() == position,
        position.preceding().following() == position,
        position.following().following().following().following().following().following()
            == position,
{
}

} // verus!
