//! Send dates of chat messages and their display: the time alone for a
//! message of today, month and day for one of this year, the full date
//! otherwise.
use std::fmt::Write;
use vstd::prelude::*;

verus! {

/// A local date and time, to the second.
#[derive(Debug, Clone, Copy, PartialEq, Eq, Structural)]
pub struct SendDate {
    pub year: i32,
    pub month: u32,
    pub day: u32,
    pub hour: u32,
    pub minute: u32,
    pub second: u32,
}

/// What chrono prints for the date and time under the `strftime` pattern:
/// nothing when the fields are no valid date and time, or the pattern cannot
/// be printed.
pub uninterp spec fn chrono_formatted(
    year: i32,
    month: u32,
    day: u32,
    hour: u32,
    minute: u32,
    second: u32,
    pattern: Seq<char>,
) -> Option<Seq<char>>;

/// Relies on chrono's `NaiveDate::from_ymd_opt`, `NaiveDate::and_hms_opt` and
/// `NaiveDateTime::format`: builds the date and time and prints it under the
/// pattern; the text depends on the fields and the pattern alone.
#[verifier::external_body]
fn format_date(d: &SendDate, pattern: &str) -> (r: Option<String>)
    ensures
        r is Some <==> chrono_formatted(d.year, d.month, d.day, d.hour, d.minute, d.second, pattern@) is Some,
        r is Some ==> r->Some_0@ == chrono_formatted(
            d.year,
            d.month,
            d.day,
            d.hour,
            d.minute,
            d.second,
            pattern@,
        )->Some_0,
{
    let date = chrono::NaiveDate::from_ymd_opt(d.year, d.month, d.day)?;
    let time = date.and_hms_opt(d.hour, d.minute, d.second)?;
    let mut out = String::new();
    match write!(out, "{}", time.format(pattern)) {
        Ok(_) => Some(out),
        Err(_) => None,
    }
}

/// Relies on chrono's `Local::now`: the local date and time of the machine,
/// which nothing here can predict.
#[verifier::external_body]
pub(crate) fn local_now() -> (r: SendDate) {
    let now = chrono::Local::now().naive_local();
    SendDate {
        year: chrono::Datelike::year(&now),
        month: chrono::Datelike::month(&now),
        day: chrono::Datelike::day(&now),
        hour: chrono::Timelike::hour(&now),
        minute: chrono::Timelike::minute(&now),
        second: chrono::Timelike::second(&now),
    }
}

/// How much of a send date is shown.
#[derive(Debug, Clone, Copy, PartialEq, Eq, Structural)]
pub enum DateStyle {
    /// Sent today: the time alone.
    TimeOnly,
    /// Sent this year: weekday, month, day and time.
    MonthDay,
    /// Sent in another year: the full date and time.
    Full,
}

/// The style of a date seen at `now`.
pub open spec fn spec_date_style(date: SendDate, now: SendDate) -> DateStyle {
    if date.year == now.year && date.month == now.month && date.day == now.day {
        DateStyle::TimeOnly
    } else if date.year == now.year {
        DateStyle::MonthDay
    } else {
        DateStyle::Full
    }
}

/// The `strftime` pattern of each style.
pub open spec fn style_pattern(style: DateStyle) -> Seq<char> {
    match style {
        DateStyle::TimeOnly => "%I:%M %p"@,
        DateStyle::MonthDay => "%A %b %e, %I:%M %p"@,
        DateStyle::Full => "%A %b %e, %Y %I:%M %p"@,
    }
}

/// The text shown for a date seen at `now`; empty for an invalid date.
pub open spec fn spec_format_send_date(date: SendDate, now: SendDate) -> Seq<char> {
    match chrono_formatted(
        date.year,
        date.month,
        date.day,
        date.hour,
        date.minute,
        date.second,
        style_pattern(spec_date_style(date, now)),
    ) {
        Some(s) => s,
        None => Seq::empty(),
    }
}

/// Chooses how much of a send date to show at `now`.
pub fn date_style(date: &SendDate, now: &SendDate) -> (r: DateStyle)
    ensures
        r == spec_date_style(*date, *now),
{
    if date.year == now.year && date.month == now.month && date.day == now.day {
        DateStyle::TimeOnly
    } else if date.year == now.year {
        DateStyle::MonthDay
    } else {
        DateStyle::Full
    }
}

/// The `strftime` pattern of a style.
pub fn pattern_of(style: DateStyle) -> (r: &'static str)
    ensures
        r@ == style_pattern(style),
{
    match style {
        DateStyle::TimeOnly => "%I:%M %p",
        DateStyle::MonthDay => "%A %b %e, %I:%M %p",
        DateStyle::Full => "%A %b %e, %Y %I:%M %p",
    }
}

/// The text shown for a send date seen at `now`.
pub fn format_send_date_at(date: &SendDate, now: &SendDate) -> (r: String)
    ensures
        r@ == spec_format_send_date(*date, *now),
{
    let pattern = pattern_of(date_style(date, now));
    match format_date(date, pattern) {
        Some(s) => s,
        None => String::new(),
    }
}

/// The text shown for a send date, seen at the current local time.
pub fn format_send_date(date: &SendDate) -> (r: String)
    ensures
        exists|now: SendDate| r@ == spec_format_send_date(*date, now),
{
    let now = local_now();
    format_send_date_at(date, &now)
}

} // verus!
