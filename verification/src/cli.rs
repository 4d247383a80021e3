//! Scanning of the command line for the month flag, and the usage text.

use vstd::prelude::*;
use vstd::string::StrSliceExecFns;
use vstd::string::StringExecFns;

verus! {

/// Outcome of scanning the command line, over the argument strings' views.
pub enum ArgOutcome {
    /// No flag found: the month after today is meant.
    NoMonth,
    /// The month flag with a valid value 1..=12.
    Month(int),
    /// The help flag.
    Help,
    /// The month flag as the last argument, with no value after it.
    MissingValue,
    /// The month flag followed by a value that is not a number 1..=12.
    BadValue(Seq<char>),
    /// Any other argument that starts with `-`.
    UnknownOption(Seq<char>),
}

/// Outcome of scanning the command line.
#[derive(Debug, PartialEq, Eq)]
pub enum MonthArg {
    NoMonth,
    Month(u8),
    Help,
    MissingValue,
    BadValue(String),
    UnknownOption(String),
}

impl View for MonthArg {
    type V = ArgOutcome;

    open spec fn view(&self) -> ArgOutcome {
        match self {
            MonthArg::NoMonth => ArgOutcome::NoMonth,
            MonthArg::Month(m) => ArgOutcome::Month(*m as int),
            MonthArg::Help => ArgOutcome::Help,
            MonthArg::MissingValue => ArgOutcome::MissingValue,
            MonthArg::BadValue(s) => ArgOutcome::BadValue(s@),
            MonthArg::UnknownOption(s) => ArgOutcome::UnknownOption(s@),
        }
    }
}

pub open spec fn is_digit(c: char) -> bool {
    48 <= c as int <= 57
}

pub open spec fn digit_val(c: char) -> int {
    c as int - 48
}

/// Numeric value of a sequence of decimal digits, most significant first.
pub open spec fn digits_value(s: Seq<char>) -> int
    decreases s.len(),
{
    if s.len() == 0 {
        0
    } else {
        digits_value(s.drop_last()) * 10 + digit_val(s.last())
    }
}

pub open spec fn all_digits(s: Seq<char>) -> bool {
    forall|j: int| 0 <= j < s.len() ==> is_digit(s[j])
}

/// The digits of the string, with an optional leading `+` sign removed: the
/// form unsigned-integer parsing accepts.
pub open spec fn numeric_body(s: Seq<char>) -> Seq<char> {
    if s.len() > 0 && s[0] == '+' {
        s.skip(1)
    } else {
        s
    }
}

pub open spec fn is_numeric(s: Seq<char>) -> bool {
    numeric_body(s).len() > 0 && all_digits(numeric_body(s))
}

pub open spec fn numeric_value(s: Seq<char>) -> int {
    digits_value(numeric_body(s))
}

/// The strings accepted as a month value: a number between 1 and 12.
pub open spec fn is_month_value(s: Seq<char>) -> bool {
    is_numeric(s) && 1 <= numeric_value(s) <= 12
}

/// Parses the value given after the month flag: `Some` exactly for a numeric
/// string whose value lies between 1 and 12.
pub fn parse_month_value(s: &str) -> (r: Option<u8>)
    ensures
        r matches Some(m) ==> is_month_value(s@) && m as int == numeric_value(s@),
        r is None ==> !is_month_value(s@),
{
    let n = s.unicode_len();
    let start: usize = if n > 0 && s.get_char(0) == '+' {
        1
    } else {
        0
    };
    if start >= n {
        return None;
    }
    let ghost body = numeric_body(s@);
    proof {
        assert(body =~= s@.subrange(start as int, n as int));
    }
    let mut val: u32 = 0;
    let mut too_big = false;
    let mut i = start;
    while i < n
        invariant
            start <= i <= n,
            start < n,
            n == s@.len(),
            body == numeric_body(s@),
            body == s@.subrange(start as int, n as int),
            all_digits(s@.subrange(start as int, i as int)),
            !too_big ==> val == digits_value(s@.subrange(start as int, i as int)) && val <= 129,
            too_big ==> digits_value(s@.subrange(start as int, i as int)) > 12,
        decreases n - i,
    {
        let c = s.get_char(i);
        let u = c as u32;
        if u < 48 || u > 57 {
            proof {
                assert(body[i - start] == s@[i as int]);
                assert(!all_digits(body));
            }
            return None;
        }
        let d = u - 48;
        proof {
            let pre = s@.subrange(start as int, i as int);
            let ext = s@.subrange(start as int, i as int + 1);
            assert(ext.drop_last() =~= pre);
            assert(ext.last() == s@[i as int]);
            assert(digits_value(ext) == digits_value(pre) * 10 + digit_val(s@[i as int]));
        }
        if too_big {
            proof {
                let dv = digits_value(s@.subrange(start as int, i as int));
                let dc = digit_val(s@[i as int]);
                assert(dv * 10 + dc > 12) by (nonlinear_arith)
                    requires
                        dv > 12,
                        dc >= 0,
                ;
            }
        } else if val > 12 {
            proof {
                let dv = digits_value(s@.subrange(start as int, i as int));
                let dc = digit_val(s@[i as int]);
                assert(dv * 10 + dc > 12) by (nonlinear_arith)
                    requires
                        dv > 12,
                        dc >= 0,
                ;
            }
            too_big = true;
        } else {
            val = val * 10 + d;
        }
        i = i + 1;
    }
    proof {
        assert(s@.subrange(start as int, n as int) =~= body);
    }
    if too_big {
        return None;
    }
    if 1 <= val && val <= 12 {
        Some(val as u8)
    } else {
        None
    }
}

/// What scanning the argument strings from position `i` onward yields, with
/// `found` the value of the first valid month flag seen so far. An error or
/// the help flag decides wherever it stands, however early a valid month flag
/// came; a valid month flag is remembered and the scan goes on; arguments
/// that are not flags are passed over.
pub open spec fn parse_spec(args: Seq<Seq<char>>, i: int, found: Option<int>) -> ArgOutcome
    decreases args.len() - i,
{
    if i >= args.len() {
        match found {
            Some(m) => ArgOutcome::Month(m),
            None => ArgOutcome::NoMonth,
        }
    } else if args[i] == "--month"@ || args[i] == "-m"@ {
        if i + 1 >= args.len() {
            ArgOutcome::MissingValue
        } else if is_month_value(args[i + 1]) {
            parse_spec(
                args,
                i + 2,
                if found is Some {
                    found
                } else {
                    Some(numeric_value(args[i + 1]))
                },
            )
        } else {
            ArgOutcome::BadValue(args[i + 1])
        }
    } else if args[i] == "--help"@ || args[i] == "-h"@ {
        ArgOutcome::Help
    } else if args[i].len() > 0 && args[i][0] == '-' {
        ArgOutcome::UnknownOption(args[i])
    } else {
        parse_spec(args, i + 1, found)
    }
}

/// The month value remembered so far, as the spec sees it.
pub open spec fn found_view(f: Option<u8>) -> Option<int> {
    match f {
        Some(m) => Some(m as int),
        None => None,
    }
}

/// Scans the arguments (the program name in front) for the month or help
/// flag, as `parse_spec` describes from position 1.
pub fn parse_month_argument(args: &Vec<String>) -> (r: MonthArg)
    ensures
        r@ == parse_spec(args.deep_view(), 1, None),
{
    let ghost dv = args.deep_view();
    let month_long = String::from_str("--month");
    let month_short = String::from_str("-m");
    let help_long = String::from_str("--help");
    let help_short = String::from_str("-h");
    let mut found: Option<u8> = None;
    let mut i: usize = 1;
    while i < args.len()
        invariant
            1 <= i,
            dv == args.deep_view(),
            dv.len() == args@.len(),
            month_long@ == "--month"@,
            month_short@ == "-m"@,
            help_long@ == "--help"@,
            help_short@ == "-h"@,
            parse_spec(dv, 1, None) == parse_spec(dv, i as int, found_view(found)),
        decreases args.len() - i,
    {
        proof {
            assert(dv[i as int] == args@[i as int]@);
        }
        let arg = &args[i];
        if *arg == month_long || *arg == month_short {
            if i + 1 >= args.len() {
                return MonthArg::MissingValue;
            }
            proof {
                assert(dv[i as int + 1] == args@[i as int + 1]@);
            }
            match parse_month_value(args[i + 1].as_str()) {
                Some(m) => {
                    if found.is_none() {
                        found = Some(m);
                    }
                    i = i + 2;
                },
                None => {
                    return MonthArg::BadValue(args[i + 1].clone());
                },
            }
        } else if *arg == help_long || *arg == help_short {
            return MonthArg::Help;
        } else {
            let a = arg.as_str();
            if a.unicode_len() > 0 && a.get_char(0) == '-' {
                return MonthArg::UnknownOption(args[i].clone());
            }
            i = i + 1;
        }
    }
    match found {
        Some(m) => MonthArg::Month(m),
        None => MonthArg::NoMonth,
    }
}

/// The usage text, with the program's name filled in.
pub open spec fn usage_spec(prog: Seq<char>) -> Seq<char> {
    "Usage: "@ + prog
        + " [OPTIONS]\n\nOptions:\n  -m, --month <MONTH>    Specify the month (1-12) for which to create the folder\n                         If not specified, uses the following month\n  -h, --help             Show this help message\n\nExamples:\n  "@
        + prog + "                     # Creates folder for next month's first Wednesday\n  "@
        + prog + " -m 9                # Creates folder for September's first Wednesday\n  "@
        + prog + " --month 12          # Creates folder for December's first Wednesday\n"@
}

/// Builds the usage text around the program's name.
pub fn usage_text(prog: &str) -> (r: String)
    ensures
        r@ == usage_spec(prog@),
{
    let mut s = String::from_str("Usage: ");
    s.append(prog);
    s.append(
        " [OPTIONS]\n\nOptions:\n  -m, --month <MONTH>    Specify the month (1-12) for which to create the folder\n                         If not specified, uses the following month\n  -h, --help             Show this help message\n\nExamples:\n  ",
    );
    s.append(prog);
    s.append("                     # Creates folder for next month's first Wednesday\n  ");
    s.append(prog);
    s.append(" -m 9                # Creates folder for September's first Wednesday\n  ");
    s.append(prog);
    s.append(" --month 12          # Creates folder for December's first Wednesday\n");
    proof {
        assert(s@ =~= usage_spec(prog@));
    }
    s
}

} // verus!
