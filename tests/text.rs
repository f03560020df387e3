use passepartout::text::{file_name_of, quote, same_text, to_decimal, truncate_for_status};

#[test]
fn short_text_is_kept() {
    assert_eq!(truncate_for_status("hello", 10), "hello");
    assert_eq!(truncate_for_status("exactly10!", 10), "exactly10!");
    assert_eq!(truncate_for_status("", 3), "");
}

#[test]
fn long_text_is_cut_to_the_limit() {
    let r = truncate_for_status("abcdefghijkl", 10);
    assert_eq!(r, "abcdefg...");
    assert_eq!(r.chars().count(), 10);
    assert!(r.ends_with("..."));
}

#[test]
fn truncation_counts_characters() {
    let r = truncate_for_status("ééééé", 4);
    assert_eq!(r, "é...");
}

#[test]
fn decimal_notation() {
    assert_eq!(to_decimal(0), "0");
    assert_eq!(to_decimal(7), "7");
    assert_eq!(to_decimal(4096), "4096");
    assert_eq!(to_decimal(u64::MAX), "18446744073709551615");
}

#[test]
fn file_names() {
    assert_eq!(file_name_of("/home/user/notes.txt"), "notes.txt");
    assert_eq!(file_name_of("notes.txt"), "notes.txt");
    assert_eq!(file_name_of("dir/"), "");
}

#[test]
fn quoting_and_comparing() {
    assert_eq!(quote("x y"), "\"x y\"");
    assert!(same_text("abc", "abc"));
    assert!(!same_text("abc", "abd"));
}
