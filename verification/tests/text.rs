use yotasm::text::{same_text, write_decimal};

#[test]
fn same_text_compares_every_character() {
    assert!(same_text("", ""));
    assert!(same_text("yot-8", "yot-8"));
    assert!(same_text("e\u{301}", "e\u{301}"));
    assert!(!same_text("yot-8", "yot-9"));
    assert!(!same_text("yot-8", "yot-"));
    assert!(!same_text("", "a"));
    assert!(!same_text("\u{e9}", "e\u{301}"));
}

#[test]
fn decimal_digits_without_leading_zeros() {
    for (number, digits) in [(0usize, "0"), (7, "7"), (10, "10"), (905, "905"), (65536, "65536")] {
        let mut text = String::new();
        write_decimal(&mut text, number);
        assert_eq!(text, digits);
    }
    let mut text = "size ".to_string();
    write_decimal(&mut text, usize::MAX);
    assert_eq!(text, format!("size {}", usize::MAX));
}
