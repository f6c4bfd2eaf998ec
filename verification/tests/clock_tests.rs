use launcher::clock::{date_label, derive_time, hour12, meridiem, sample_time, ClockReading, Meridiem};

#[test]
fn hour12_pins_midnight_noon_and_afternoon() {
    assert_eq!(hour12(0), 12);
    assert_eq!(hour12(12), 12);
    assert_eq!(hour12(13), 1);
    assert_eq!(hour12(1), 1);
    assert_eq!(hour12(11), 11);
    assert_eq!(hour12(23), 11);
}

#[test]
fn hour12_stays_in_display_range_for_every_hour() {
    for h in 0u8..24 {
        let r = hour12(h);
        assert!((1..=12).contains(&r), "hour {} mapped to {}", h, r);
    }
}

#[test]
fn meridiem_is_am_before_noon_and_pm_from_noon_on() {
    for h in 0u8..12 {
        assert_eq!(meridiem(h), Meridiem::Am);
    }
    for h in 12u8..24 {
        assert_eq!(meridiem(h), Meridiem::Pm);
    }
}

#[test]
fn meridiem_labels() {
    assert_eq!(Meridiem::Am.label(), "AM");
    assert_eq!(Meridiem::Pm.label(), "PM");
}

#[test]
fn date_label_formats_weekday_month_and_padded_day() {
    assert_eq!(date_label(6, 10, 11), "Saturday, Oct 11");
    assert_eq!(date_label(0, 1, 5), "Sunday, Jan 05");
    assert_eq!(date_label(3, 12, 31), "Wednesday, Dec 31");
    assert_eq!(date_label(1, 2, 1), "Monday, Feb 01");
    assert_eq!(date_label(2, 5, 20), "Tuesday, May 20");
    assert_eq!(date_label(4, 7, 4), "Thursday, Jul 04");
    assert_eq!(date_label(5, 9, 30), "Friday, Sep 30");
}

#[test]
fn date_label_matches_chrono_formatting() {
    // The original display formatted the date with chrono's "%A, %b %d";
    // the library's label must agree with it on a known date.
    let d = chrono::NaiveDate::from_ymd_opt(2026, 10, 11).unwrap();
    let weekday = chrono::Datelike::weekday(&d).num_days_from_sunday() as u8;
    let month = chrono::Datelike::month(&d) as u8;
    let day = chrono::Datelike::day(&d) as u8;
    let expected = format!("{}", d.format("%A, %b %d"));
    assert_eq!(date_label(weekday, month, day), expected);
    assert_eq!(date_label(weekday, month, day), "Sunday, Oct 11");
}

#[test]
fn derive_time_afternoon_scenario() {
    let c = ClockReading { hour24: 13, minute: 5, weekday_from_sunday: 2, month: 6, day: 9 };
    let t = derive_time(&c);
    assert_eq!(t.hour12, 1);
    assert_eq!(t.minute, 5);
    assert_eq!(t.meridiem, Meridiem::Pm);
    assert_eq!(t.date_label, "Tuesday, Jun 09");
}

#[test]
fn derive_time_after_midnight_scenario() {
    let c = ClockReading { hour24: 0, minute: 30, weekday_from_sunday: 0, month: 1, day: 1 };
    let t = derive_time(&c);
    assert_eq!(t.hour12, 12);
    assert_eq!(t.minute, 30);
    assert_eq!(t.meridiem, Meridiem::Am);
    assert_eq!(t.date_label, "Sunday, Jan 01");
}

#[test]
fn sample_time_reads_a_valid_instant() {
    let t = sample_time();
    assert!((1..=12).contains(&t.hour12));
    assert!(t.minute < 60);
    // The label always holds a comma and a two-digit day.
    assert!(t.date_label.contains(", "));
    let day_part = &t.date_label[t.date_label.len() - 2..];
    assert!(day_part.chars().all(|c| c.is_ascii_digit()));
}
