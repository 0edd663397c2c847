use spider_window::text::{
    chars_of, cut_before, decimal_text, find_text, has_text, join_texts, same_text,
    skip_chars,
};

#[test]
fn searching() {
    assert_eq!(find_text("abcabc", "ca"), Some(2));
    assert_eq!(find_text("abcabc", "abc"), Some(0));
    assert_eq!(find_text("abc", "abcd"), None);
    assert_eq!(find_text("", ""), Some(0));
    assert_eq!(find_text("abc", ""), Some(0));
    assert_eq!(find_text("aab", "ab"), Some(1));
    assert_eq!(find_text("\u{e4}\u{f6}x", "x"), Some(2));
    assert!(has_text("audio-capture", "audio"));
    assert!(!has_text("aud", "audio"));
}

#[test]
fn cutting() {
    assert_eq!(cut_before("151.0.0", "."), "151");
    assert_eq!(cut_before("151", "."), "151");
    assert_eq!(cut_before(".1", "."), "");
    assert_eq!(skip_chars("abc", 1), "bc");
    assert_eq!(skip_chars("\u{e4}bc", 1), "bc");
    assert_eq!(skip_chars("abc", 3), "");
}

#[test]
fn joining() {
    let parts: Vec<String> = ["Camera", "Microphone", "Location"]
        .iter()
        .map(|s| s.to_string())
        .collect();
    assert_eq!(join_texts(&parts, ", "), "Camera, Microphone, Location");
    assert_eq!(join_texts(&parts[..1].to_vec(), ", "), "Camera");
    assert_eq!(join_texts(&Vec::new(), ", "), "");
}

#[test]
fn characters_and_numbers() {
    assert_eq!(chars_of("a\u{e4}"), vec!['a', '\u{e4}']);
    assert!(same_text("abc", "abc"));
    assert!(!same_text("abc", "abd"));
    assert_eq!(decimal_text(0), "0");
    assert_eq!(decimal_text(9), "9");
    assert_eq!(decimal_text(10), "10");
    assert_eq!(decimal_text(8080), "8080");
    assert_eq!(decimal_text(65535), "65535");
}
