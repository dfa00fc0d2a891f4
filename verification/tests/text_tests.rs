use rustmusic::text::{clock_parts, contains, format_clock, str_equal, truncate_text};

#[test]
fn clock_under_an_hour() {
    assert_eq!(format_clock(0), "00:00");
    assert_eq!(format_clock(7), "00:07");
    assert_eq!(format_clock(65), "01:05");
    assert_eq!(format_clock(3599), "59:59");
}

#[test]
fn clock_with_hours() {
    assert_eq!(format_clock(3600), "01:00:00");
    assert_eq!(format_clock(3723), "01:02:03");
    assert_eq!(format_clock(36000), "10:00:00");
    assert_eq!(format_clock(360000), "100:00:00");
    assert_eq!(format_clock(u64::MAX), "5124095576030431:00:15");
}

#[test]
fn clock_parts_recombine() {
    for t in [0u64, 59, 60, 3599, 3600, 86399, 123456789] {
        let (h, m, s) = clock_parts(t);
        assert!(m < 60 && s < 60);
        assert_eq!(h * 3600 + m * 60 + s, t);
    }
}

#[test]
fn truncate_cuts_long_text() {
    assert_eq!(truncate_text("hello world", 5), "hello...");
    assert_eq!(truncate_text("hello", 5), "hello");
    assert_eq!(truncate_text("", 0), "");
    assert_eq!(truncate_text("ab", 0), "...");
    assert_eq!(truncate_text("héllo wörld", 4), "héll...");
}

#[test]
fn contains_finds_substrings() {
    assert!(contains("hello", "ell"));
    assert!(contains("hello", ""));
    assert!(contains("hello", "hello"));
    assert!(!contains("hello", "hello!"));
    assert!(!contains("hello", "lo!"));
    assert!(contains("naïve", "ïv"));
    assert!(!contains("", "a"));
}

#[test]
fn equality_of_text() {
    assert!(str_equal("abc", "abc"));
    assert!(!str_equal("abc", "abd"));
    assert!(!str_equal("abc", "ab"));
    assert!(str_equal("", ""));
}
