use lci_gateway::text::{decimal_string, is_word, parse_number, sanitize, signed_decimal_string};
use lci_gateway::NumberError;

#[test]
fn is_word_ignores_the_case_of_letters() {
    assert!(is_word("OFF", "OFF"));
    assert!(is_word("off", "OFF"));
    assert!(is_word("oFf", "OFF"));
    assert!(is_word("heat_pump", "HEAT_PUMP"));
}

#[test]
fn is_word_tells_words_apart() {
    assert!(!is_word("ON", "OFF"));
    assert!(!is_word("OF", "OFF"));
    assert!(!is_word("OFFF", "OFF"));
    assert!(!is_word("", "OFF"));
    assert!(!is_word("0FF", "OFF"));
    assert!(is_word("", ""));
}

#[test]
fn is_word_changes_nothing_but_the_letters_a_to_z() {
    // '@' and '`' stand next to the letters in the character table.
    assert!(!is_word("`", "@"));
    assert!(!is_word("{", "["));
    // A ligature is no pair of letters.
    assert!(!is_word("o\u{fb00}", "OFF"));
    // A letter with a mark is left as it is.
    assert!(!is_word("\u{e9}", "\u{c9}"));
    assert!(is_word("\u{e9}", "\u{e9}"));
}

#[test]
fn is_word_does_not_lower_the_word() {
    // Only the text is put in upper case, never the word it is held against.
    assert!(!is_word("off", "off"));
    assert!(!is_word("OFF", "off"));
}

#[test]
fn sanitize_replaces_colons_and_hyphens() {
    assert_eq!(sanitize("dimmer:0000"), "dimmer_0000");
    assert_eq!(sanitize("idsmyrv:hvac-thing:1a-2b"), "idsmyrv_hvac_thing_1a_2b");
    assert_eq!(sanitize("::--"), "____");
}

#[test]
fn sanitize_keeps_every_other_character() {
    assert_eq!(sanitize(""), "");
    assert_eq!(sanitize("plain_name.7"), "plain_name.7");
    assert_eq!(sanitize("a b/c;d\u{2013}e"), "a b/c;d\u{2013}e");
}

#[test]
fn decimal_string_writes_numbers() {
    assert_eq!(decimal_string(0), "0");
    assert_eq!(decimal_string(7), "7");
    assert_eq!(decimal_string(10), "10");
    assert_eq!(decimal_string(75), "75");
    assert_eq!(decimal_string(100), "100");
    assert_eq!(decimal_string(1_000_000), "1000000");
    assert_eq!(decimal_string(u64::MAX), "18446744073709551615");
}

#[test]
fn signed_decimal_string_writes_the_sign() {
    assert_eq!(signed_decimal_string(0), "0");
    assert_eq!(signed_decimal_string(72), "72");
    assert_eq!(signed_decimal_string(-1), "-1");
    assert_eq!(signed_decimal_string(-40), "-40");
    assert_eq!(signed_decimal_string(isize::MAX), isize::MAX.to_string());
    assert_eq!(signed_decimal_string(isize::MIN), isize::MIN.to_string());
}

#[test]
fn parse_number_reads_digits() {
    assert_eq!(parse_number("0", 100), Ok(0));
    assert_eq!(parse_number("55", 100), Ok(55));
    assert_eq!(parse_number("100", 100), Ok(100));
    assert_eq!(parse_number("255", 255), Ok(255));
}

#[test]
fn parse_number_takes_a_plus_sign_and_leading_zeros() {
    assert_eq!(parse_number("+55", 100), Ok(55));
    assert_eq!(parse_number("007", 100), Ok(7));
    assert_eq!(parse_number("+000", 100), Ok(0));
    assert_eq!(parse_number("000000000000000000000000000000100", 100), Ok(100));
}

#[test]
fn parse_number_refuses_the_empty_text() {
    assert_eq!(parse_number("", 100), Err(NumberError::Empty));
}

#[test]
fn parse_number_refuses_what_is_no_digit() {
    assert_eq!(parse_number("+", 100), Err(NumberError::InvalidDigit));
    assert_eq!(parse_number("-", 100), Err(NumberError::InvalidDigit));
    assert_eq!(parse_number("-5", 100), Err(NumberError::InvalidDigit));
    assert_eq!(parse_number("++5", 100), Err(NumberError::InvalidDigit));
    assert_eq!(parse_number("5+", 100), Err(NumberError::InvalidDigit));
    assert_eq!(parse_number(" 5", 100), Err(NumberError::InvalidDigit));
    assert_eq!(parse_number("5 ", 100), Err(NumberError::InvalidDigit));
    assert_eq!(parse_number("5.0", 100), Err(NumberError::InvalidDigit));
    assert_eq!(parse_number("1_0", 100), Err(NumberError::InvalidDigit));
    assert_eq!(parse_number("ON", 100), Err(NumberError::InvalidDigit));
    assert_eq!(parse_number("\u{665}", 100), Err(NumberError::InvalidDigit));
}

#[test]
fn parse_number_refuses_what_is_above_the_limit() {
    assert_eq!(parse_number("101", 100), Err(NumberError::TooLarge));
    assert_eq!(parse_number("256", 255), Err(NumberError::TooLarge));
    assert_eq!(parse_number("1", 0), Err(NumberError::TooLarge));
    assert_eq!(parse_number("99999999999999999999999999999999", 100), Err(NumberError::TooLarge));
}

#[test]
fn parse_number_judges_the_shape_before_the_size() {
    assert_eq!(parse_number("300x", 100), Err(NumberError::InvalidDigit));
    assert_eq!(parse_number("x300", 100), Err(NumberError::InvalidDigit));
}

#[test]
fn parse_number_reads_back_what_decimal_string_wrote() {
    let mut n: u8 = 0;
    loop {
        assert_eq!(parse_number(&decimal_string(n as u64), 255), Ok(n));
        if n == 255 {
            break;
        }
        n += 1;
    }
}
