use sisr::vid_pid::{
    comparison_pair, format_hex4, lowered_ids_match, normalize_id, path_digits, reported_pair,
    same_ids, try_get_real_vid_pid_from_gamepad,
};

const PATH: &str = r"\\.\pipe\HID#VID_045E&PID_028E&IG_00#045E&028E&00645E28E235E61F#2#4828";

fn pair(a: &str, b: &str) -> Option<(String, String)> {
    Some((a.to_string(), b.to_string()))
}

#[test]
fn hex_is_four_lower_case_digits() {
    assert_eq!(format_hex4(0x045e), "045e");
    assert_eq!(format_hex4(0), "0000");
    assert_eq!(format_hex4(0xffff), "ffff");
    assert_eq!(format_hex4(0xABCD), "abcd");
    assert_eq!(format_hex4(0x28de), format!("{:04x}", 0x28de));
}

#[test]
fn ids_are_normalized_to_lower_case_with_prefix() {
    assert_eq!(normalize_id("045E"), "0x045e");
    assert_eq!(normalize_id(""), "0x");
    assert_eq!(normalize_id("ÄB"), "0xäb");
}

#[test]
fn path_names_the_ids_in_its_third_segment() {
    assert_eq!(path_digits(PATH), pair("045E", "028E"));
    assert_eq!(path_digits("a#b#c&d"), pair("c", "d"));
    assert_eq!(path_digits("a#b#&"), pair("", ""));
    assert_eq!(path_digits("a#b#c"), None);
    assert_eq!(path_digits("a#b"), None);
    assert_eq!(path_digits(""), None);
    assert_eq!(path_digits("##x&y&z#"), pair("x", "y"));
}

#[test]
fn path_takes_precedence_over_reported_ids() {
    assert_eq!(
        try_get_real_vid_pid_from_gamepad(Some(0x28de), Some(0x11ff), Some(PATH)),
        pair("0x045e", "0x028e")
    );
    assert_eq!(try_get_real_vid_pid_from_gamepad(None, None, Some(PATH)), pair("0x045e", "0x028e"));
}

#[test]
fn reported_ids_are_the_fallback() {
    assert_eq!(
        try_get_real_vid_pid_from_gamepad(Some(0x28de), Some(0x11ff), None),
        pair("0x28de", "0x11ff")
    );
    assert_eq!(
        try_get_real_vid_pid_from_gamepad(Some(0x28de), Some(0x11ff), Some("/dev/input/event5")),
        pair("0x28de", "0x11ff")
    );
    assert_eq!(
        try_get_real_vid_pid_from_gamepad(Some(0x28de), Some(0x11ff), Some("a#b#c")),
        pair("0x28de", "0x11ff")
    );
    assert_eq!(reported_pair(Some(1), Some(2)), pair("0x0001", "0x0002"));
}

#[test]
fn nothing_is_derived_without_path_and_ids() {
    assert_eq!(try_get_real_vid_pid_from_gamepad(None, None, None), None);
    assert_eq!(try_get_real_vid_pid_from_gamepad(Some(1), None, None), None);
    assert_eq!(try_get_real_vid_pid_from_gamepad(None, Some(1), Some("x")), None);
    assert_eq!(reported_pair(None, Some(2)), None);
    assert_eq!(
        comparison_pair(None, None, None),
        ("unknown".to_string(), "unknown".to_string())
    );
    assert_eq!(
        comparison_pair(Some(0x045e), Some(0x028e), None),
        ("0x045e".to_string(), "0x028e".to_string())
    );
}

#[test]
fn ids_are_compared_without_regard_to_case() {
    assert!(same_ids("0x045E", "0x028E", "0x045e", "0x028e"));
    assert!(same_ids("0x045e", "0x028e", "0x045e", "0x028e"));
    assert!(!same_ids("0x045e", "0x028f", "0x045e", "0x028e"));
    assert!(!same_ids("0x045e", "0x028e", "0x045E", "0x028e"));
    assert!(lowered_ids_match("a", "b", "a", "b"));
    assert!(!lowered_ids_match("a", "b", "a", "c"));
    assert!(!lowered_ids_match("a", "b", "c", "b"));
}
