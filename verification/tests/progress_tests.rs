use music_dl::progress::{contains_marker, parse_pct, trim_str};

#[test]
fn pct_from_marker_line() {
    // 42.0% reads as 4200 hundredths of a percent.
    assert_eq!(parse_pct("[download]  42.0% of ~3.50MiB at  2.1MiB/s"), Some(4200));
}

#[test]
fn pct_without_marker_is_none() {
    assert_eq!(parse_pct("  42.0% of ~3.50MiB"), None);
    assert_eq!(parse_pct("[youtube] extracting"), None);
}

#[test]
fn pct_whole_number() {
    assert_eq!(parse_pct("[download] 100% of 3.50MiB in 00:01"), Some(10000));
}

#[test]
fn pct_no_percent_token_is_none() {
    assert_eq!(parse_pct("[download] Destination: /tmp/a.mp3"), None);
}

#[test]
fn pct_first_percent_token_wins() {
    assert_eq!(parse_pct("[download] 10.5% of x at 99.9% speed"), Some(1050));
}

#[test]
fn pct_non_numeric_token_is_none() {
    assert_eq!(parse_pct("[download] N/A% of x"), None);
    assert_eq!(parse_pct("[download] 1.2.3% of x"), None);
}

#[test]
fn pct_fraction_only() {
    assert_eq!(parse_pct("[download] .5% of x"), Some(50));
}

#[test]
fn pct_repeated_percent_signs_are_stripped() {
    assert_eq!(parse_pct("[download] 42.0%% of x"), Some(4200));
}

#[test]
fn pct_marker_detection() {
    assert!(contains_marker("xx[download]yy"));
    assert!(!contains_marker("[downloa]"));
    assert!(!contains_marker(""));
}

#[test]
fn pct_three_decimals_truncate_to_hundredths() {
    assert_eq!(parse_pct("[download] 12.345% of x"), Some(1234));
}

#[test]
fn trim_removes_edges_only() {
    assert_eq!(trim_str("  /a/b.mp3 \r\n"), "/a/b.mp3");
    assert_eq!(trim_str("a b"), "a b");
    assert_eq!(trim_str("   "), "");
}
