use openvy::text::{char_is_whitespace, chars_of, contains_text, is_blank};
use openvy::vision::{fetch_latest_ocr, VisionEvent};

#[test]
fn characters_in_order() {
    assert_eq!(chars_of("aé😀"), vec!['a', 'é', '😀']);
    assert!(chars_of("").is_empty());
}

#[test]
fn blank_strings() {
    assert!(is_blank(""));
    assert!(is_blank(" \t\n\r\u{0b}\u{0c}\u{85}\u{a0}\u{2003}\u{2028}\u{3000}"));
    assert!(!is_blank(" a "));
    assert!(!is_blank("\u{200b}"));
}

#[test]
fn substring_search() {
    assert!(contains_text("Erro: Tesseract not found. Please", "Tesseract not found"));
    assert!(contains_text("abc", ""));
    assert!(contains_text("", ""));
    assert!(!contains_text("", "a"));
    assert!(contains_text("abc", "abc"));
    assert!(!contains_text("ab", "abc"));
    assert!(contains_text("aaab", "aab"));
    assert!(!contains_text("tesseract not found", "Tesseract not found"));
    assert!(contains_text("xyzção", "ção"));
}

#[test]
fn latest_text_is_the_stand_in() {
    assert_eq!(fetch_latest_ocr(), Ok("Mock OCR Data from ScreenPipe".to_string()));
}

#[test]
fn vision_event_holds_its_fields() {
    let e = VisionEvent { text: "t".to_string(), timestamp: "2024-01-01T00:00:00Z".to_string() };
    assert_eq!(e.clone(), e);
}

#[test]
fn white_space_agrees_with_std() {
    for c in (0u32..=0x10ffff).filter_map(char::from_u32) {
        assert_eq!(char_is_whitespace(c), c.is_whitespace(), "{:?}", c);
    }
}
