use odt_creator::date::{first_wednesday_for_month, folder_name, Date};

#[test]
fn next_month_example() {
    // 2025-06-13 is a Friday; with no target month the target is July 2025,
    // whose first day is a Tuesday, so the first Wednesday is July 2.
    let today = Date { year: 2025, month: 6, day: 13 };
    let r = first_wednesday_for_month(None, today);
    assert_eq!(r, Date { year: 2025, month: 7, day: 2 });
    assert_eq!(folder_name(r), "20250702");
}

#[test]
fn september_example() {
    // 2025-09-01 is a Monday, so the first Wednesday is September 3.
    let today = Date { year: 2025, month: 6, day: 13 };
    let r = first_wednesday_for_month(Some(9), today);
    assert_eq!(r, Date { year: 2025, month: 9, day: 3 });
    assert_eq!(folder_name(r), "20250903");
}

#[test]
fn all_months_give_a_wednesday() {
    let today = Date { year: 2025, month: 6, day: 13 };
    for m in 1..=12u8 {
        let r = first_wednesday_for_month(Some(m), today);
        assert_eq!(r.month, m);
        assert!(r.day <= 7);
        let date = chrono::NaiveDate::from_ymd_opt(r.year as i32, r.month as u32, r.day as u32)
            .unwrap();
        assert_eq!(chrono::Datelike::weekday(&date), chrono::Weekday::Wed);
    }
}

#[test]
fn december_rolls_over_to_january() {
    let today = Date { year: 2025, month: 12, day: 31 };
    let r = first_wednesday_for_month(None, today);
    assert_eq!(r.year, 2026);
    assert_eq!(r.month, 1);
    // 2026-01-01 is a Thursday, so the first Wednesday is January 7.
    assert_eq!(r.day, 7);
}

#[test]
fn past_month_moves_to_next_year() {
    let today = Date { year: 2025, month: 6, day: 13 };
    let r = first_wednesday_for_month(Some(1), today);
    assert_eq!(r.year, 2026);
    assert_eq!(r.month, 1);
}

#[test]
fn current_month_stays_in_current_year() {
    // The first Wednesday of June 2025 (June 4) is already past on June 13,
    // but a target equal to the current month keeps the current year.
    let today = Date { year: 2025, month: 6, day: 13 };
    let r = first_wednesday_for_month(Some(6), today);
    assert_eq!(r, Date { year: 2025, month: 6, day: 4 });
}

#[test]
fn folder_name_is_zero_padded() {
    let d = Date { year: 987, month: 1, day: 5 };
    assert_eq!(folder_name(d), "09870105");
    let e = Date { year: 2025, month: 12, day: 31 };
    assert_eq!(folder_name(e), "20251231");
}

#[test]
fn leap_year_february() {
    // 2028 is a leap year; 2028-02-01 is a Tuesday, so the first Wednesday
    // of February 2028 is February 2.
    let today = Date { year: 2028, month: 1, day: 30 };
    let r = first_wednesday_for_month(Some(2), today);
    assert_eq!(r, Date { year: 2028, month: 2, day: 2 });
}
