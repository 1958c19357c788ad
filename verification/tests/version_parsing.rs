use openclaw_installer::detector::{extract_git_version, git_version_from, parse_node_version, read_banner};

#[test]
fn major_of_version_with_prefix() {
    assert_eq!(parse_node_version("v22.3.0"), Some(22));
}

#[test]
fn major_of_version_without_prefix() {
    assert_eq!(parse_node_version("22.3.0"), Some(22));
}

#[test]
fn major_of_version_that_is_no_number() {
    assert_eq!(parse_node_version("vX.Y"), None);
}

#[test]
fn major_needs_a_dot() {
    assert_eq!(parse_node_version("v22"), None);
    assert_eq!(parse_node_version("22"), None);
    assert_eq!(parse_node_version(""), None);
    assert_eq!(parse_node_version("v"), None);
}

#[test]
fn major_is_read_from_the_start_only() {
    assert_eq!(parse_node_version("node v22.3.0"), None);
    assert_eq!(parse_node_version(" v22.3.0"), None);
    assert_eq!(parse_node_version("vv22.3.0"), None);
    assert_eq!(parse_node_version("v.5.3"), None);
    assert_eq!(parse_node_version(".5"), None);
}

#[test]
fn major_takes_digits_only() {
    assert_eq!(parse_node_version("+22.0"), None);
    assert_eq!(parse_node_version("-22.0"), None);
    assert_eq!(parse_node_version("v22a.0"), None);
    assert_eq!(parse_node_version("v٢٢.0"), None);
    assert_eq!(parse_node_version("v2 2.0"), None);
}

#[test]
fn major_may_have_leading_zeros() {
    assert_eq!(parse_node_version("v022.1"), Some(22));
    assert_eq!(parse_node_version("0.1"), Some(0));
    assert_eq!(parse_node_version("v00000000000000000007.1"), Some(7));
}

#[test]
fn major_is_bounded_by_32_bits() {
    assert_eq!(parse_node_version("4294967295.0"), Some(4294967295));
    assert_eq!(parse_node_version("4294967296.0"), None);
    assert_eq!(parse_node_version("v99999999999999999999999.1"), None);
}

#[test]
fn major_stops_at_the_first_dot() {
    assert_eq!(parse_node_version("v18.20.4"), Some(18));
    assert_eq!(parse_node_version("v18..4"), Some(18));
    assert_eq!(parse_node_version("20."), Some(20));
}

#[test]
fn git_version_is_found_in_the_sentence() {
    assert_eq!(extract_git_version("git version 2.39.2\n"), "2.39.2");
    assert_eq!(extract_git_version("git version 2.43.0"), "2.43.0");
}

#[test]
fn git_version_keeps_digits_and_dots_only() {
    assert_eq!(extract_git_version("git version 2.39.2.windows.1\n"), "2.39.2.");
    assert_eq!(extract_git_version("git version 2.39.3 (Apple Git-146)\n"), "2.39.3");
}

#[test]
fn git_version_is_unknown_without_the_sentence() {
    assert_eq!(extract_git_version(""), "Unknown");
    assert_eq!(extract_git_version("version 2.39.2"), "Unknown");
    assert_eq!(extract_git_version("git version unknown"), "Unknown");
}

#[test]
fn git_version_is_searched_anywhere() {
    assert_eq!(extract_git_version("warning: x\ngit version 1.8.0\n"), "1.8.0");
}

#[test]
fn git_version_from_capture() {
    assert_eq!(git_version_from(Some("2.1".to_string())), "2.1");
    assert_eq!(git_version_from(None), "Unknown");
}

#[test]
fn banner_gives_third_word_of_first_line() {
    assert_eq!(read_banner("🦞 OpenClaw 2026.2.14 (c1feda1) — ready\n"), "2026.2.14");
    assert_eq!(read_banner("  a b c d\nsecond line 1 2 3\n"), "c");
    assert_eq!(read_banner("a\tb\u{3000}c"), "c");
}

#[test]
fn banner_falls_back_to_first_line() {
    assert_eq!(read_banner("2026.2.14\n"), "2026.2.14");
    assert_eq!(read_banner("OpenClaw 2026\nmore words here"), "OpenClaw 2026");
    assert_eq!(read_banner("one two\r\nthree four five"), "one two");
}

#[test]
fn banner_falls_back_to_unknown() {
    assert_eq!(read_banner(""), "unknown");
    assert_eq!(read_banner("  \n\t\r\n "), "unknown");
}
