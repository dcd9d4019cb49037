use chrono::{Datelike, Local, NaiveDateTime, Timelike};
use secse24_group08::dates::{date_style, format_send_date, format_send_date_at, DateStyle, SendDate};

fn from_chrono(t: NaiveDateTime) -> SendDate {
    SendDate {
        year: t.year(),
        month: t.month(),
        day: t.day(),
        hour: t.hour(),
        minute: t.minute(),
        second: t.second(),
    }
}

#[test]
fn test_format_send_date() {
    let now = Local::now().naive_local();
    assert_eq!(format_send_date(&from_chrono(now)), now.format("%I:%M %p").to_string());

    let same_year = NaiveDateTime::parse_from_str("2024-05-24 15:30:00", "%Y-%m-%d %H:%M:%S").unwrap();
    let seen = from_chrono(NaiveDateTime::parse_from_str("2024-09-01 08:00:00", "%Y-%m-%d %H:%M:%S").unwrap());
    assert_eq!(
        format_send_date_at(&from_chrono(same_year), &seen),
        same_year.format("%A %b %e, %I:%M %p").to_string()
    );

    let different_year = NaiveDateTime::parse_from_str("2023-05-24 15:30:00", "%Y-%m-%d %H:%M:%S").unwrap();
    assert_eq!(
        format_send_date_at(&from_chrono(different_year), &seen),
        different_year.format("%A %b %e, %Y %I:%M %p").to_string()
    );
}

#[test]
fn send_date_exact_texts() {
    let date = SendDate { year: 2024, month: 5, day: 24, hour: 15, minute: 30, second: 0 };
    let same_day = SendDate { year: 2024, month: 5, day: 24, hour: 20, minute: 0, second: 0 };
    let later = SendDate { year: 2024, month: 9, day: 1, hour: 8, minute: 0, second: 0 };
    let next_year = SendDate { year: 2025, month: 1, day: 1, hour: 8, minute: 0, second: 0 };
    assert_eq!(format_send_date_at(&date, &same_day), "03:30 PM");
    assert_eq!(format_send_date_at(&date, &later), "Friday May 24, 03:30 PM");
    assert_eq!(format_send_date_at(&date, &next_year), "Friday May 24, 2024 03:30 PM");
}

#[test]
fn send_date_styles() {
    let date = SendDate { year: 2024, month: 5, day: 24, hour: 15, minute: 30, second: 0 };
    let other_month = SendDate { year: 2024, month: 6, day: 24, hour: 15, minute: 30, second: 0 };
    let other_year = SendDate { year: 2023, month: 5, day: 24, hour: 15, minute: 30, second: 0 };
    assert_eq!(date_style(&date, &date), DateStyle::TimeOnly);
    assert_eq!(date_style(&date, &other_month), DateStyle::MonthDay);
    assert_eq!(date_style(&date, &other_year), DateStyle::Full);
}

#[test]
fn invalid_send_date_prints_nothing() {
    let bad = SendDate { year: 2024, month: 2, day: 30, hour: 10, minute: 0, second: 0 };
    let now = SendDate { year: 2024, month: 3, day: 1, hour: 10, minute: 0, second: 0 };
    assert_eq!(format_send_date_at(&bad, &now), "");
}
