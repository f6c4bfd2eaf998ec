//! Wall-clock sampling: 12-hour conversion, meridiem, and the date label.

use vstd::prelude::*;

verus! {

/// Half of the day a 24-hour value falls in.
#[derive(Clone, Copy, PartialEq, Eq, Structural, Debug)]
pub enum Meridiem {
    Am,
    Pm,
}

/// The 12-hour display value of a 24-hour clock value: midnight and noon
/// both show as 12, every other hour as its remainder modulo 12.
pub open spec fn hour12_spec(hour24: int) -> int {
    if hour24 % 12 == 0 {
        12
    } else {
        hour24 % 12
    }
}

/// AM strictly before noon, PM from noon on.
pub open spec fn meridiem_spec(hour24: int) -> Meridiem {
    if hour24 < 12 {
        Meridiem::Am
    } else {
        Meridiem::Pm
    }
}

/// Law: every valid 24-hour value shows as an hour between 1 and 12.
pub proof fn lemma_hour12_range(hour24: int)
    requires
        0 <= hour24 < 24,
    ensures
        1 <= hour12_spec(hour24) <= 12,
{
}

/// Converts a 24-hour clock value to its 12-hour display value.
pub fn hour12(hour24: u8) -> (r: u8)
    requires
        hour24 < 24,
    ensures
        r == hour12_spec(hour24 as int),
        1 <= r <= 12,
{
    let m = hour24 % 12;
    if m == 0 {
        12
    } else {
        m
    }
}

/// Tells the half of the day a 24-hour clock value falls in.
pub fn meridiem(hour24: u8) -> (r: Meridiem)
    requires
        hour24 < 24,
    ensures
        r == meridiem_spec(hour24 as int),
{
    if hour24 < 12 {
        Meridiem::Am
    } else {
        Meridiem::Pm
    }
}

impl Meridiem {
    /// The display text of this half of the day.
    pub open spec fn label_spec(&self) -> Seq<char> {
        match *self {
            Meridiem::Am => "AM"@,
            Meridiem::Pm => "PM"@,
        }
    }

    /// Returns the display text of this half of the day.
    pub fn label(&self) -> (r: &'static str)
        ensures
            r@ == self.label_spec(),
    {
        match *self {
            Meridiem::Am => "AM",
            Meridiem::Pm => "PM",
        }
    }
}

/// The full English name of a weekday, counted with Sunday as day 0.
pub open spec fn weekday_name(w: int) -> Seq<char> {
    if w == 0 {
        "Sunday"@
    } else if w == 1 {
        "Monday"@
    } else if w == 2 {
        "Tuesday"@
    } else if w == 3 {
        "Wednesday"@
    } else if w == 4 {
        "Thursday"@
    } else if w == 5 {
        "Friday"@
    } else {
        "Saturday"@
    }
}

/// The three-letter English abbreviation of a month, counted from 1.
pub open spec fn month_abbrev(m: int) -> Seq<char> {
    if m == 1 {
        "Jan"@
    } else if m == 2 {
        "Feb"@
    } else if m == 3 {
        "Mar"@
    } else if m == 4 {
        "Apr"@
    } else if m == 5 {
        "May"@
    } else if m == 6 {
        "Jun"@
    } else if m == 7 {
        "Jul"@
    } else if m == 8 {
        "Aug"@
    } else if m == 9 {
        "Sep"@
    } else if m == 10 {
        "Oct"@
    } else if m == 11 {
        "Nov"@
    } else {
        "Dec"@
    }
}

/// A single decimal digit as text.
pub open spec fn digit_seq(d: int) -> Seq<char> {
    if d == 0 {
        "0"@
    } else if d == 1 {
        "1"@
    } else if d == 2 {
        "2"@
    } else if d == 3 {
        "3"@
    } else if d == 4 {
        "4"@
    } else if d == 5 {
        "5"@
    } else if d == 6 {
        "6"@
    } else if d == 7 {
        "7"@
    } else if d == 8 {
        "8"@
    } else {
        "9"@
    }
}

/// The date label shown under the clock: "Weekday, Mon DD", with the
/// day of the month zero-padded to two digits.
pub open spec fn date_label_spec(weekday: int, month: int, day: int) -> Seq<char> {
    weekday_name(weekday) + ", "@ + month_abbrev(month) + " "@ + digit_seq(day / 10) + digit_seq(
        day % 10,
    )
}

fn weekday_str(w: u8) -> (r: &'static str)
    requires
        w < 7,
    ensures
        r@ == weekday_name(w as int),
{
    if w == 0 {
        "Sunday"
    } else if w == 1 {
        "Monday"
    } else if w == 2 {
        "Tuesday"
    } else if w == 3 {
        "Wednesday"
    } else if w == 4 {
        "Thursday"
    } else if w == 5 {
        "Friday"
    } else {
        "Saturday"
    }
}

fn month_str(m: u8) -> (r: &'static str)
    requires
        1 <= m <= 12,
    ensures
        r@ == month_abbrev(m as int),
{
    if m == 1 {
        "Jan"
    } else if m == 2 {
        "Feb"
    } else if m == 3 {
        "Mar"
    } else if m == 4 {
        "Apr"
    } else if m == 5 {
        "May"
    } else if m == 6 {
        "Jun"
    } else if m == 7 {
        "Jul"
    } else if m == 8 {
        "Aug"
    } else if m == 9 {
        "Sep"
    } else if m == 10 {
        "Oct"
    } else if m == 11 {
        "Nov"
    } else {
        "Dec"
    }
}

fn digit_str(d: u8) -> (r: &'static str)
    requires
        d < 10,
    ensures
        r@ == digit_seq(d as int),
{
    if d == 0 {
        "0"
    } else if d == 1 {
        "1"
    } else if d == 2 {
        "2"
    } else if d == 3 {
        "3"
    } else if d == 4 {
        "4"
    } else if d == 5 {
        "5"
    } else if d == 6 {
        "6"
    } else if d == 7 {
        "7"
    } else if d == 8 {
        "8"
    } else {
        "9"
    }
}

/// Builds the "Weekday, Mon DD" date label from calendar fields.
pub fn date_label(weekday: u8, month: u8, day: u8) -> (r: String)
    requires
        weekday < 7,
        1 <= month <= 12,
        1 <= day <= 31,
    ensures
        r@ == date_label_spec(weekday as int, month as int, day as int),
{
    let mut s = String::new();
    s.append(weekday_str(weekday));
    s.append(", ");
    s.append(month_str(month));
    s.append(" ");
    s.append(digit_str(day / 10));
    s.append(digit_str(day % 10));
    proof {
        assert(s@ =~= date_label_spec(weekday as int, month as int, day as int));
    }
    s
}

/// One raw reading of the local wall clock, as plain calendar and clock
/// fields: hour 0-23, minute 0-59, weekday counted from Sunday as 0,
/// month counted from 1, day of the month counted from 1.
#[derive(Clone, Copy, PartialEq, Eq, Structural, Debug)]
pub struct ClockReading {
    pub hour24: u8,
    pub minute: u8,
    pub weekday_from_sunday: u8,
    pub month: u8,
    pub day: u8,
}

impl ClockReading {
    /// Every field lies in its calendar range.
    pub open spec fn wf(&self) -> bool {
        &&& self.hour24 < 24
        &&& self.minute < 60
        &&& self.weekday_from_sunday < 7
        &&& 1 <= self.month <= 12
        &&& 1 <= self.day <= 31
    }
}

/// The display-ready form of one clock reading.
pub struct TimeSample {
    pub hour12: u8,
    pub minute: u8,
    pub meridiem: Meridiem,
    pub date_label: String,
}

/// The mathematical value of a [`TimeSample`].
pub struct TimeSampleView {
    pub hour12: int,
    pub minute: int,
    pub meridiem: Meridiem,
    pub date_label: Seq<char>,
}

impl View for TimeSample {
    type V = TimeSampleView;

    open spec fn view(&self) -> TimeSampleView {
        TimeSampleView {
            hour12: self.hour12 as int,
            minute: self.minute as int,
            meridiem: self.meridiem,
            date_label: self.date_label@,
        }
    }
}

impl TimeSample {
    /// The hour is a 12-hour display value and the minute a clock minute.
    pub open spec fn wf(&self) -> bool {
        &&& 1 <= self.hour12 <= 12
        &&& self.minute < 60
    }
}

/// The one time sample a given clock reading derives to.
pub open spec fn time_sample_of(c: ClockReading) -> TimeSampleView {
    TimeSampleView {
        hour12: hour12_spec(c.hour24 as int),
        minute: c.minute as int,
        meridiem: meridiem_spec(c.hour24 as int),
        date_label: date_label_spec(
            c.weekday_from_sunday as int,
            c.month as int,
            c.day as int,
        ),
    }
}

/// Derives the display-ready time sample from a raw clock reading.
pub fn derive_time(c: &ClockReading) -> (t: TimeSample)
    requires
        c.wf(),
    ensures
        t@ == time_sample_of(*c),
        t.wf(),
{
    TimeSample {
        hour12: hour12(c.hour24),
        minute: c.minute,
        meridiem: meridiem(c.hour24),
        date_label: date_label(c.weekday_from_sunday, c.month, c.day),
    }
}

/// Reads the current local time as one well-formed clock reading.
///
/// Relies on chrono::Local::now and, on the one date-time it returns, the
/// chrono::Timelike accessors hour (0 to 23) and minute (0 to 59) and the
/// chrono::Datelike accessors weekday (whose num_days_from_sunday is 0 to
/// 6), month (1 to 12) and day (1 to 31).
#[verifier::external_body]
pub(crate) fn read_clock() -> (c: ClockReading)
    ensures
        c.wf(),
{
    let now = chrono::Local::now();
    ClockReading {
        hour24: chrono::Timelike::hour(&now) as u8,
        minute: chrono::Timelike::minute(&now) as u8,
        weekday_from_sunday: chrono::Datelike::weekday(&now).num_days_from_sunday() as u8,
        month: chrono::Datelike::month(&now) as u8,
        day: chrono::Datelike::day(&now) as u8,
    }
}

/// Samples the wall clock and derives its display-ready form: the
/// sample is the derivation of some well-formed clock reading, never a
/// value made up apart from one.
pub fn sample_time() -> (t: TimeSample)
    ensures
        t.wf(),
        exists|c: ClockReading| c.wf() && t@ == time_sample_of(c),
{
    let c = read_clock();
    let t = derive_time(&c);
    proof {
        assert(c.wf() && t@ == time_sample_of(c));
    }
    t
}

} // verus!
