use flatus::idle::{activity_signal, platform_user_idle_secs, user_idle_secs, ActivitySignal};

const REPORT: &str = "+-o IOHIDSystem  <class IOHIDSystem, id 0x100000123>\n    {\n      \"IOClass\" = \"IOHIDSystem\"\n      \"HIDIdleTime\" = 4521000000\n      \"HIDParameters\" = {}\n    }\n";

#[test]
fn macos_idle_returns_a_value_under_a_day() {
    let idle = user_idle_secs(Some(REPORT));
    assert!(idle.is_some(), "expected ioreg to return an HIDIdleTime");
    assert!(idle.unwrap() < 86_400, "idle time should not exceed a day");
}

#[test]
fn idle_value_is_whole_seconds() {
    assert_eq!(user_idle_secs(Some(REPORT)), Some(4));
    assert_eq!(platform_user_idle_secs("\"HIDIdleTime\"=999999999"), Some(0));
    assert_eq!(platform_user_idle_secs("\"HIDIdleTime\" = +61000000000\r\n"), Some(61));
}

#[test]
fn no_report_or_no_key_gives_none() {
    assert_eq!(user_idle_secs(None), None);
    assert_eq!(platform_user_idle_secs(""), None);
    assert_eq!(platform_user_idle_secs("\"HIDIdle\" = 5\n"), None);
}

#[test]
fn first_matching_line_decides() {
    // The first line with the key does not parse; later lines are not read.
    let text = "\"HIDIdleTime\" = soon\n\"HIDIdleTime\" = 5000000000\n";
    assert_eq!(platform_user_idle_secs(text), None);
    let text = "x\n  \"HIDIdleTime\" = 7000000000 \n\"HIDIdleTime\" = 1\n";
    assert_eq!(platform_user_idle_secs(text), Some(7));
}

#[test]
fn value_parsing_edges() {
    assert_eq!(platform_user_idle_secs("\"HIDIdleTime\" = -5"), None);
    assert_eq!(platform_user_idle_secs("\"HIDIdleTime\" = +"), None);
    assert_eq!(platform_user_idle_secs("\"HIDIdleTime\" ="), None);
    assert_eq!(platform_user_idle_secs("\"HIDIdleTime\" = 18446744073709551615"), Some(18_446_744_073));
    assert_eq!(platform_user_idle_secs("\"HIDIdleTime\" = 18446744073709551616"), None);
    assert_eq!(platform_user_idle_secs("\"HIDIdleTime\" = 12 34"), None);
    assert_eq!(platform_user_idle_secs("\"HIDIdleTime\" =\t\u{3000}2000000000\u{a0}"), Some(2));
    assert_eq!(platform_user_idle_secs("\"HIDIdleTime\" \t= 3000000000"), None);
}

#[test]
fn activity_means_idle_under_a_minute() {
    assert!(activity_signal(Some(0)).user_is_active);
    assert!(activity_signal(Some(59)).user_is_active);
    assert!(!activity_signal(Some(60)).user_is_active);
    assert!(!activity_signal(None).user_is_active);
    assert!(!ActivitySignal::default().user_is_active);
}
