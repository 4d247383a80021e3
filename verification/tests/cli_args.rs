use odt_creator::cli::{parse_month_argument, parse_month_value, usage_text, MonthArg};

fn args(list: &[&str]) -> Vec<String> {
    list.iter().map(|s| s.to_string()).collect()
}

#[test]
fn no_arguments_means_no_month() {
    assert_eq!(parse_month_argument(&args(&["prog"])), MonthArg::NoMonth);
}

#[test]
fn short_flag_with_valid_month() {
    assert_eq!(parse_month_argument(&args(&["prog", "-m", "9"])), MonthArg::Month(9));
}

#[test]
fn long_flag_with_valid_month() {
    assert_eq!(parse_month_argument(&args(&["prog", "--month", "12"])), MonthArg::Month(12));
}

#[test]
fn month_thirteen_is_rejected() {
    assert_eq!(
        parse_month_argument(&args(&["prog", "--month", "13"])),
        MonthArg::BadValue("13".to_string())
    );
}

#[test]
fn month_zero_is_rejected() {
    assert_eq!(
        parse_month_argument(&args(&["prog", "-m", "0"])),
        MonthArg::BadValue("0".to_string())
    );
}

#[test]
fn non_numeric_month_is_rejected() {
    assert_eq!(
        parse_month_argument(&args(&["prog", "--month", "abc"])),
        MonthArg::BadValue("abc".to_string())
    );
}

#[test]
fn missing_month_value_is_rejected() {
    assert_eq!(parse_month_argument(&args(&["prog", "--month"])), MonthArg::MissingValue);
    assert_eq!(parse_month_argument(&args(&["prog", "-m"])), MonthArg::MissingValue);
}

#[test]
fn unknown_option_is_rejected() {
    assert_eq!(
        parse_month_argument(&args(&["prog", "-x"])),
        MonthArg::UnknownOption("-x".to_string())
    );
}

#[test]
fn help_flags() {
    assert_eq!(parse_month_argument(&args(&["prog", "--help"])), MonthArg::Help);
    assert_eq!(parse_month_argument(&args(&["prog", "-h"])), MonthArg::Help);
}

#[test]
fn bare_arguments_are_passed_over() {
    assert_eq!(parse_month_argument(&args(&["prog", "notes", "-m", "3"])), MonthArg::Month(3));
}

#[test]
fn unknown_option_is_an_error_wherever_it_stands() {
    assert_eq!(
        parse_month_argument(&args(&["prog", "-m", "5", "-x"])),
        MonthArg::UnknownOption("-x".to_string())
    );
    assert_eq!(
        parse_month_argument(&args(&["prog", "--bad", "-m", "5"])),
        MonthArg::UnknownOption("--bad".to_string())
    );
}

#[test]
fn help_decides_even_after_a_valid_month() {
    assert_eq!(parse_month_argument(&args(&["prog", "-m", "6", "--help"])), MonthArg::Help);
    assert_eq!(parse_month_argument(&args(&["prog", "-h", "-m", "6"])), MonthArg::Help);
}

#[test]
fn first_valid_month_is_kept() {
    assert_eq!(parse_month_argument(&args(&["prog", "-m", "5", "-m", "7"])), MonthArg::Month(5));
}

#[test]
fn bad_value_decides_before_later_arguments() {
    assert_eq!(
        parse_month_argument(&args(&["prog", "--month", "13", "-x"])),
        MonthArg::BadValue("13".to_string())
    );
}

#[test]
fn month_values_parse_like_integers() {
    assert_eq!(parse_month_value("7"), Some(7));
    assert_eq!(parse_month_value("+9"), Some(9));
    assert_eq!(parse_month_value("007"), Some(7));
    assert_eq!(parse_month_value(""), None);
    assert_eq!(parse_month_value("+"), None);
    assert_eq!(parse_month_value("13"), None);
    assert_eq!(parse_month_value("0"), None);
    assert_eq!(parse_month_value("1e1"), None);
    assert_eq!(parse_month_value("99999999999999999999"), None);
    assert_eq!(parse_month_value("-3"), None);
}

#[test]
fn usage_names_the_program() {
    let u = usage_text("odt_creator");
    assert!(u.starts_with("Usage: odt_creator [OPTIONS]\n"));
    assert!(u.contains("-m, --month <MONTH>"));
    assert!(u.contains("-h, --help"));
    assert!(u.contains("odt_creator --month 12"));
}
