use tabbed_document_ui::text::{push_decimal, same_text};

fn written(number: u32) -> String {
    let mut out = String::new();
    push_decimal(&mut out, number);
    out
}

#[test]
fn same_text_compares_characters() {
    assert!(same_text("", ""));
    assert!(same_text("txt", "txt"));
    assert!(!same_text("txt", "tx"));
    assert!(!same_text("txt", "txT"));
    assert!(!same_text("", "a"));
    assert!(same_text("grüße", "grüße"));
    assert!(!same_text("grüße", "grusse"));
}

#[test]
fn decimal_of_small_numbers() {
    assert_eq!(written(0), "0");
    assert_eq!(written(7), "7");
    assert_eq!(written(9), "9");
}

#[test]
fn decimal_of_larger_numbers() {
    assert_eq!(written(10), "10");
    assert_eq!(written(101), "101");
    assert_eq!(written(1920), "1920");
    assert_eq!(written(u32::MAX), "4294967295");
}

#[test]
fn decimal_agrees_with_the_standard_library() {
    for number in [0u32, 1, 9, 10, 11, 99, 100, 12345, 1_000_000, u32::MAX - 1] {
        assert_eq!(written(number), number.to_string());
    }
}

#[test]
fn push_decimal_writes_behind_what_is_there() {
    let mut out = String::from("x: ");
    push_decimal(&mut out, 640);
    assert_eq!(out, "x: 640");
}
