use inno_creed::install::{doctor_report, install_plan};
use inno_creed::platform::Platform;
use inno_creed::text::{
    chars_of, contains_text, decimal_text, has_prefix, join_text, position_of, text_eq,
};

#[test]
fn contains_finds_text_in_the_middle_and_at_the_ends() {
    assert!(contains_text("doctor: ✅ 인증 성공 (ok)", "✅ 인증 성공"));
    assert!(contains_text("abc", "a"));
    assert!(contains_text("abc", "c"));
    assert!(contains_text("abc", ""));
    assert!(contains_text("", ""));
    assert!(!contains_text("abc", "abcd"));
    assert!(!contains_text("⚠️ 인증 실패", "✅ 인증 성공"));
    assert!(!contains_text("", "x"));
}

#[test]
fn prefix_and_equality() {
    assert!(has_prefix("chrome-extension://abc/", "chrome-extension://"));
    assert!(!has_prefix("chrome-extension:/", "chrome-extension://"));
    assert!(has_prefix("x", ""));
    assert!(text_eq("--version", "--version"));
    assert!(!text_eq("--version", "--versio"));
    assert!(!text_eq("-v", "-V"));
}

#[test]
fn chars_and_concat() {
    assert_eq!(chars_of("가a"), vec!['가', 'a']);
    assert_eq!(join_text("설치 중 오류가 발생했습니다: ", "disk full"), "설치 중 오류가 발생했습니다: disk full");
    assert_eq!(join_text("", ""), "");
}

#[test]
fn decimal_matches_to_string() {
    for n in [0u32, 1, 7, 9, 10, 42, 100, 65535, 1_000_000, u32::MAX] {
        assert_eq!(decimal_text(n), n.to_string());
    }
}

#[test]
fn first_position_of_a_flag() {
    let args: Vec<String> = ["a", "--x", "b", "--x"].iter().map(|s| s.to_string()).collect();
    assert_eq!(position_of(&args, "--x"), Some(1));
    assert_eq!(position_of(&args, "--y"), None);
    assert_eq!(position_of(&Vec::new(), "--x"), None);
}

#[test]
fn path_join_adds_one_separator() {
    let sep = std::path::MAIN_SEPARATOR;
    let dest = |dir: &str, name: &str| install_plan(Platform::Other, dir, name, None, false).dest_bin;
    assert_eq!(dest("base", "inno-creed"), format!("base{sep}inno-creed"));
    assert_eq!(dest("base/", "x"), "base/x");
    assert_eq!(dest("", "x"), "x");
    let joined = dest("/opt/apps", "installer.exe");
    assert!(joined.starts_with("/opt/apps"));
    assert!(joined.ends_with("installer.exe"));
    assert_ne!(joined, "/opt/apps");
}

#[test]
fn lossy_decoding_keeps_valid_text_and_marks_invalid_bytes() {
    assert_eq!(doctor_report("인증 ok".as_bytes(), b""), "인증 ok");
    assert_eq!(doctor_report(b"", b""), "");
    assert_eq!(doctor_report(&[b'a', 0xff, b'b'], b""), "a\u{FFFD}b");
}
