use clash_tui::text::{compact_path, parse_i64, parse_u32, trim, truncate_chars, u64_to_string};
use clash_tui::ui::{format_duration_at, Tab};

#[test]
fn numbers_round_trip_through_text() {
    for n in [0u32, 7, 10, 86400, u32::MAX] {
        assert_eq!(parse_u32(&u64_to_string(n as u64)), Some(n));
    }
    assert_eq!(parse_u32("+12"), Some(12));
    assert_eq!(parse_u32("4294967296"), None);
    assert_eq!(parse_u32(""), None);
    assert_eq!(parse_i64("-5"), Some(-5));
}

#[test]
fn trimming_and_shortening() {
    assert_eq!(trim("\t a b \n"), "a b");
    assert_eq!(truncate_chars("abcdef", 3), "abc...");
    assert_eq!(truncate_chars("abc", 3), "abc");
    assert_eq!(compact_path("/very/long/path", 8), ".../path");
}

#[test]
fn relative_times() {
    assert_eq!(format_duration_at("", 100), "-");
    assert_eq!(format_duration_at("abc", 100), "abc");
    assert_eq!(format_duration_at("100", 130), "刚刚");
    assert_eq!(format_duration_at("100", 100 + 120), "2分钟前");
    assert_eq!(format_duration_at("0", 7200), "2小时前");
    assert_eq!(format_duration_at("0", 3 * 86400), "3天前");
}

#[test]
fn tabs_round_trip_through_their_index() {
    for i in 0..6 {
        assert_eq!(Tab::from_index(i).index(), i);
    }
    assert_eq!(Tab::Providers.title(), "订阅");
}
