use odt_creator::text::{output_filename, trimmed};

#[test]
fn extension_is_appended() {
    assert_eq!(output_filename("report"), Some("report.odt".to_string()));
}

#[test]
fn surrounding_space_is_trimmed() {
    assert_eq!(output_filename("  meeting notes \t"), Some("meeting notes.odt".to_string()));
}

#[test]
fn empty_input_gives_no_name() {
    assert_eq!(output_filename(""), None);
}

#[test]
fn whitespace_only_input_gives_no_name() {
    assert_eq!(output_filename("   "), None);
    assert_eq!(output_filename("\t\r\n"), None);
    assert_eq!(output_filename("\u{a0}\u{2003}"), None);
}

#[test]
fn inner_space_is_kept() {
    assert_eq!(trimmed(" a b "), "a b");
    assert_eq!(trimmed("döc"), "döc");
}
