//! Tests of the sanitizer and the date normalizer on concrete inputs.

use fetch_feed::dates::{epoch_or_zero, parse_date};
use fetch_feed::sanitize::process_markup;

#[test]
fn noscript_round_trip() {
    let wrapped = process_markup("<p>A</p><noscript><p>B</p></noscript><p>C</p>");
    let bare = process_markup("<p>B</p>");
    assert_eq!(wrapped, bare);
    assert_eq!(wrapped, "<p>B</p>");
}

#[test]
fn sanitizer_strips_script() {
    let out = process_markup("<script>alert(1)</script><p>ok</p>");
    assert!(!out.contains("script"));
    assert!(out.contains("<p>ok</p>"));
}

#[test]
fn noscript_marker_without_pair_is_kept() {
    let out = process_markup("noscript <p>x</p>");
    assert!(out.contains("noscript"));
    assert!(out.contains("<p>x</p>"));
}

#[test]
fn noscript_unwrap_keeps_only_interior() {
    let out = process_markup("before<noscript><b>kept</b></noscript>after");
    assert_eq!(out, "<b>kept</b>");
}

#[test]
fn date_fallback() {
    assert_eq!(parse_date("not-a-date"), 0);
    assert_eq!(parse_date("Thu, 22 Sep 2022 01:58:26 +0200"), 1663804706);
}

#[test]
fn date_pre_epoch_is_negative() {
    assert_eq!(parse_date("Fri, 01 Jan 1960 00:00:00 +0000"), -315619200);
}

#[test]
fn epoch_or_zero_cases() {
    assert_eq!(epoch_or_zero(Some(5)), 5);
    assert_eq!(epoch_or_zero(Some(-3)), -3);
    assert_eq!(epoch_or_zero(None), 0);
}

#[test]
fn empty_markup_stays_empty() {
    assert_eq!(process_markup(""), "");
}
