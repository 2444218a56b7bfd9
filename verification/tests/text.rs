use exsul::startup::{location_text, panic_report, payload_text};
use exsul::text::{push_decimal, str_eq, trim_str};

#[test]
fn trim_matches_std() {
    for s in ["  a b  ", "\u{3000}x\u{a0}", "", "   ", "\tტექსტი\n"] {
        assert_eq!(trim_str(s), s.trim());
    }
}

#[test]
fn decimal_rendering() {
    let mut s = String::from("n=");
    push_decimal(&mut s, 0);
    assert_eq!(s, "n=0");
    let mut s = String::new();
    push_decimal(&mut s, 18446744073709551615);
    assert_eq!(s, "18446744073709551615");
}

#[test]
fn string_equality() {
    assert!(str_eq("ჩაი", "ჩაი"));
    assert!(!str_eq("ab", "abc"));
    assert!(!str_eq("ab", "ac"));
}

#[test]
fn panic_report_text() {
    let loc = location_text("src/lib.rs", 12, 5);
    assert_eq!(loc, "src/lib.rs:12:5");
    assert_eq!(payload_text(None), "<non-string panic payload>");
    assert_eq!(payload_text(Some("boom")), "boom");
    let r = panic_report("2024", "boom", Some(&loc), "bt");
    assert_eq!(r, "[2024] PANIC: boom\nLocation: src/lib.rs:12:5\nBacktrace:\nbt\n\n");
    assert_eq!(panic_report("t", "m", None, ""), "[t] PANIC: m\nLocation: <unknown>\nBacktrace:\n\n\n");
}
