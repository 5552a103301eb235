use mes_sync::password::is_long_enough;
use mes_sync::text::{integer_text, is_blank, natural_text};

#[test]
fn naturals_are_written_in_decimal() {
    assert_eq!(natural_text(0), "0");
    assert_eq!(natural_text(7), "7");
    assert_eq!(natural_text(10), "10");
    assert_eq!(natural_text(1234567890), "1234567890");
    assert_eq!(natural_text(u64::MAX), "18446744073709551615");
}

#[test]
fn integers_are_written_with_their_sign() {
    assert_eq!(integer_text(0), "0");
    assert_eq!(integer_text(-1), "-1");
    assert_eq!(integer_text(905), "905");
    assert_eq!(integer_text(-100), "-100");
    assert_eq!(integer_text(i64::MAX), "9223372036854775807");
    assert_eq!(integer_text(i64::MIN), "-9223372036854775808");
}

#[test]
fn blank_means_nothing_but_white_space() {
    assert!(is_blank(""));
    assert!(is_blank(" "));
    assert!(is_blank("\t\r\n\u{b}\u{c}"));
    assert!(is_blank(
        "\u{85}\u{a0}\u{1680}\u{2000}\u{200a}\u{2028}\u{2029}\u{202f}\u{205f}\u{3000}"
    ));
    assert!(!is_blank("a"));
    assert!(!is_blank("  a  "));
    assert!(!is_blank("\u{200b}"));
    assert!(!is_blank("\u{feff}"));
    assert!(!is_blank("\u{180e}"));
    assert!(!is_blank("_"));
}

#[test]
fn password_length_counts_bytes() {
    assert!(!is_long_enough(""));
    assert!(!is_long_enough("12345"));
    assert!(is_long_enough("123456"));
    assert!(is_long_enough("\u{20ac}\u{20ac}"));
    assert!(!is_long_enough("\u{e9}\u{e9}a"));
}

/// The characters that the trimming rule of the library counts as white
/// space, written out once more.
fn counts_as_white_space(c: char) -> bool {
    let n = c as u32;
    (0x09..=0x0D).contains(&n)
        || n == 0x20
        || n == 0x85
        || n == 0xA0
        || n == 0x1680
        || (0x2000..=0x200A).contains(&n)
        || n == 0x2028
        || n == 0x2029
        || n == 0x202F
        || n == 0x205F
        || n == 0x3000
}

#[test]
fn every_character_is_blank_exactly_when_it_is_white_space() {
    for n in 0..=0x10FFFFu32 {
        if let Some(c) = char::from_u32(n) {
            let mut text = String::new();
            text.push(c);
            assert_eq!(is_blank(&text), counts_as_white_space(c), "U+{:04X}", n);
        }
    }
}
