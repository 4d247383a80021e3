//! Calendar dates, the first-Wednesday computation, and the `YYYYMMDD`
//! folder-name formatting.

use vstd::prelude::*;
use vstd::string::StringExecFns;

verus! {

/// A calendar date in the proleptic Gregorian calendar.
#[derive(Clone, Copy, PartialEq, Eq, Structural, Debug)]
pub struct Date {
    pub year: u16,
    pub month: u8,
    pub day: u8,
}

/// Gregorian leap-year rule.
pub open spec fn is_leap_year(y: int) -> bool {
    (y % 4 == 0 && y % 100 != 0) || y % 400 == 0
}

/// Number of days in month `m` (1..=12) of year `y`.
pub open spec fn days_in_month(y: int, m: int) -> int {
    if m == 2 {
        if is_leap_year(y) {
            29
        } else {
            28
        }
    } else if m == 4 || m == 6 || m == 9 || m == 11 {
        30
    } else {
        31
    }
}

/// Days of year `y` that fall before month `m`.
pub open spec fn days_before_month(y: int, m: int) -> int
    decreases m,
{
    if m <= 1 {
        0
    } else {
        days_before_month(y, m - 1) + days_in_month(y, m - 1)
    }
}

/// Days in all years before year `y` (for `y >= 1`), proleptic Gregorian.
pub open spec fn days_before_year(y: int) -> int {
    365 * (y - 1) + (y - 1) / 4 - (y - 1) / 100 + (y - 1) / 400
}

/// 1-based position of the date in the proleptic Gregorian calendar:
/// January 1 of year 1 is day 1.
pub open spec fn day_number(y: int, m: int, d: int) -> int {
    days_before_year(y) + days_before_month(y, m) + d
}

/// Weekday of a date, numbered Monday = 0 .. Sunday = 6.
/// January 1 of year 1 is a Monday, so Wednesday is index 2.
pub open spec fn weekday_index(y: int, m: int, d: int) -> int {
    (day_number(y, m, d) + 6) % 7
}

impl Date {
    /// The year, month and day form an existing calendar date, with the year
    /// in the range the folder-name format can hold.
    pub open spec fn valid(self) -> bool {
        &&& 1 <= self.year <= 9999
        &&& 1 <= self.month <= 12
        &&& 1 <= self.day <= days_in_month(self.year as int, self.month as int)
    }
}

/// Relies on `chrono::NaiveDate`: `from_ymd_opt` returns `Some` for every
/// existing proleptic Gregorian date, and
/// `weekday().num_days_from_monday()` is that date's weekday numbered
/// Monday = 0 .. Sunday = 6.
#[verifier::external_body]
fn weekday_from_monday(year: u16, month: u8, day: u8) -> (r: u8)
    requires
        1 <= year <= 9999,
        1 <= month <= 12,
        1 <= day <= days_in_month(year as int, month as int),
    ensures
        r < 7,
        r as int == weekday_index(year as int, month as int, day as int),
{
    let date = chrono::NaiveDate::from_ymd_opt(year as i32, month as u32, day as u32).unwrap();
    chrono::Datelike::weekday(&date).num_days_from_monday() as u8
}

/// Within one month, moving `d2 - d1` days forward moves the weekday that far
/// around the seven-day week.
proof fn lemma_weekday_advance(y: int, m: int, d1: int, d2: int)
    requires
        d1 <= d2,
        d2 - d1 < 7,
    ensures
        weekday_index(y, m, d2) == (weekday_index(y, m, d1) + (d2 - d1)) % 7,
{
    let n = day_number(y, m, d1) + 6;
    let k = d2 - d1;
    assert(day_number(y, m, d2) + 6 == n + k);
    vstd::arithmetic::div_mod::lemma_add_mod_noop(n, k, 7);
    vstd::arithmetic::div_mod::lemma_small_mod(k as nat, 7nat);
    assert(weekday_index(y, m, d2) == (weekday_index(y, m, d1) + k) % 7);
}

/// Date of the first Wednesday of the chosen month.
///
/// With no target month the month after `today` is chosen (rolling over
/// December to January of the next year). With a target month, the current
/// year is chosen, unless that month is already past, in which case the next
/// year's occurrence is chosen; a target equal to the current month stays in
/// the current year even if its first Wednesday is already past.
pub fn first_wednesday_for_month(target_month: Option<u8>, today: Date) -> (r: Date)
    requires
        today.valid(),
        target_month matches Some(m) ==> 1 <= m <= 12,
        // the folder-name format has four year digits, so a rollover into the
        // next year must stay below 10000
        target_month is None && today.month == 12 ==> today.year < 9999,
        target_month matches Some(m) && m < today.month ==> today.year < 9999,
    ensures
        r.valid(),
        weekday_index(r.year as int, r.month as int, r.day as int) == 2,
        r.day <= 7,
        forall|d: int| 1 <= d < r.day ==> weekday_index(r.year as int, r.month as int, d) != 2,
        match target_month {
            Some(m) => r.month == m && r.year == if m < today.month {
                today.year + 1
            } else {
                today.year as int
            },
            None => if today.month == 12 {
                r.month == 1 && r.year == today.year + 1
            } else {
                r.month == today.month + 1 && r.year == today.year
            },
        },
{
    let (month, year): (u8, u16) = match target_month {
        Some(m) => if m < today.month {
            (m, today.year + 1)
        } else {
            (m, today.year)
        },
        None => if today.month == 12 {
            (1, today.year + 1)
        } else {
            (today.month + 1, today.year)
        },
    };
    assert(days_in_month(year as int, month as int) >= 28);
    let w = weekday_from_monday(year, month, 1);
    let offset: u8 = match w {
        2 => 0,
        3 => 6,
        4 => 5,
        5 => 4,
        6 => 3,
        0 => 2,
        _ => 1,
    };
    let day: u8 = 1 + offset;
    proof {
        lemma_weekday_advance(year as int, month as int, 1, day as int);
        assert(weekday_index(year as int, month as int, day as int) == 2);
        assert forall|d: int| 1 <= d < day implies weekday_index(
            year as int,
            month as int,
            d,
        ) != 2 by {
            lemma_weekday_advance(year as int, month as int, 1, d);
        };
    }
    Date { year, month, day }
}

/// The character for one decimal digit.
pub open spec fn digit_char(d: int) -> char {
    if d == 0 {
        '0'
    } else if d == 1 {
        '1'
    } else if d == 2 {
        '2'
    } else if d == 3 {
        '3'
    } else if d == 4 {
        '4'
    } else if d == 5 {
        '5'
    } else if d == 6 {
        '6'
    } else if d == 7 {
        '7'
    } else if d == 8 {
        '8'
    } else {
        '9'
    }
}

/// The eight characters `YYYYMMDD` of a date, zero-padded.
pub open spec fn date_digits(date: Date) -> Seq<char> {
    seq![
        digit_char(date.year as int / 1000),
        digit_char((date.year as int / 100) % 10),
        digit_char((date.year as int / 10) % 10),
        digit_char(date.year as int % 10),
        digit_char(date.month as int / 10),
        digit_char(date.month as int % 10),
        digit_char(date.day as int / 10),
        digit_char(date.day as int % 10),
    ]
}

fn push_digit(s: &mut String, d: u8)
    requires
        d < 10,
    ensures
        final(s)@ == old(s)@ + seq![digit_char(d as int)],
{
    match d {
        0 => {
            proof {
                reveal_strlit("0");
                assert("0"@ =~= seq![digit_char(0)]);
            }
            s.append("0");
        },
        1 => {
            proof {
                reveal_strlit("1");
                assert("1"@ =~= seq![digit_char(1)]);
            }
            s.append("1");
        },
        2 => {
            proof {
                reveal_strlit("2");
                assert("2"@ =~= seq![digit_char(2)]);
            }
            s.append("2");
        },
        3 => {
            proof {
                reveal_strlit("3");
                assert("3"@ =~= seq![digit_char(3)]);
            }
            s.append("3");
        },
        4 => {
            proof {
                reveal_strlit("4");
                assert("4"@ =~= seq![digit_char(4)]);
            }
            s.append("4");
        },
        5 => {
            proof {
                reveal_strlit("5");
                assert("5"@ =~= seq![digit_char(5)]);
            }
            s.append("5");
        },
        6 => {
            proof {
                reveal_strlit("6");
                assert("6"@ =~= seq![digit_char(6)]);
            }
            s.append("6");
        },
        7 => {
            proof {
                reveal_strlit("7");
                assert("7"@ =~= seq![digit_char(7)]);
            }
            s.append("7");
        },
        8 => {
            proof {
                reveal_strlit("8");
                assert("8"@ =~= seq![digit_char(8)]);
            }
            s.append("8");
        },
        _ => {
            proof {
                reveal_strlit("9");
                assert("9"@ =~= seq![digit_char(9)]);
            }
            s.append("9");
        },
    }
}

/// Folder name for a date: the eight zero-padded digits `YYYYMMDD`.
pub fn folder_name(date: Date) -> (r: String)
    requires
        date.valid(),
    ensures
        r@ == date_digits(date),
{
    let mut s = String::new();
    push_digit(&mut s, (date.year / 1000) as u8);
    push_digit(&mut s, ((date.year / 100) % 10) as u8);
    push_digit(&mut s, ((date.year / 10) % 10) as u8);
    push_digit(&mut s, (date.year % 10) as u8);
    push_digit(&mut s, date.month / 10);
    push_digit(&mut s, date.month % 10);
    push_digit(&mut s, date.day / 10);
    push_digit(&mut s, date.day % 10);
    proof {
        assert(s@ =~= date_digits(date));
    }
    s
}

} // verus!
