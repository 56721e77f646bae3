use finance_manager::number::{is_number, normalize_number_text};
use finance_manager::text::{decimal_text, parse_i32, parse_u8, replace_chars, signed_decimal_text, split_chars, text_is_blank};
use finance_manager::currency_input::{Action as CurrencyAction, CurrencyInput};
use finance_manager::validation_text_input::{Validation, ValidationTextInput};

fn chars(s: &str) -> Vec<char> {
    s.chars().collect()
}

#[test]
fn numbers_with_a_decimal_comma_and_underscores() {
    assert!(is_number("12.5"));
    assert!(is_number("12,5"));
    assert!(is_number("1_000,25"));
    assert!(is_number("-3"));
    assert!(is_number("+.5"));
    assert!(is_number("1e3"));
    assert!(is_number("inf"));
    assert!(is_number("NaN"));
    assert!(!is_number(""));
    assert!(!is_number("abc"));
    assert!(!is_number("1.2.3"));
    assert!(!is_number("1e"));
}

#[test]
fn normalising_number_text() {
    let normalized: String = normalize_number_text(&chars("1_000,25")).into_iter().collect();
    assert_eq!(normalized, "1000.25");
    assert_eq!(normalized.parse::<f64>().unwrap(), 1000.25);
}

#[test]
fn splitting_and_replacing() {
    let parts: Vec<String> = split_chars(&chars("a.b..c"), '.').into_iter().map(|p| p.into_iter().collect()).collect();
    assert_eq!(parts, vec!["a", "b", "", "c"]);
    let parts: Vec<String> = split_chars(&chars(""), '.').into_iter().map(|p| p.into_iter().collect()).collect();
    assert_eq!(parts, vec![""]);
    let replaced: String = replace_chars(&chars("1/2/3"), '/', '.').into_iter().collect();
    assert_eq!(replaced, "1.2.3");
}

#[test]
fn small_integers() {
    assert_eq!(parse_u8(&chars("255")), Some(255));
    assert_eq!(parse_u8(&chars("+7")), Some(7));
    assert_eq!(parse_u8(&chars("256")), None);
    assert_eq!(parse_u8(&chars("-1")), None);
    assert_eq!(parse_u8(&chars("")), None);
    assert_eq!(parse_i32(&chars("-2147483648")), Some(i32::MIN));
    assert_eq!(parse_i32(&chars("2147483647")), Some(i32::MAX));
    assert_eq!(parse_i32(&chars("2147483648")), None);
    assert_eq!(parse_i32(&chars("-")), None);
}

#[test]
fn numerals_of_numbers() {
    assert_eq!(decimal_text(0), "0");
    assert_eq!(decimal_text(7), "7");
    assert_eq!(decimal_text(31), "31");
    assert_eq!(decimal_text(500), "500");
    assert_eq!(decimal_text(u64::MAX), u64::MAX.to_string());
    for n in [0u64, 9, 10, 123456789] {
        assert_eq!(decimal_text(n).parse::<u64>().unwrap(), n);
    }
}

#[test]
fn numerals_of_signed_numbers() {
    for n in [0i32, 5, -5, 3600, -7200, i32::MAX, i32::MIN] {
        assert_eq!(signed_decimal_text(n), n.to_string());
    }
}

#[test]
fn blank_texts() {
    assert!(text_is_blank(""));
    assert!(text_is_blank(" \t\n\u{a0}\u{3000}"));
    assert!(!text_is_blank(" x "));
    assert_eq!(text_is_blank(" \u{2028} "), " \u{2028} ".trim().is_empty());
}

#[test]
fn validated_inputs() {
    let mut input = ValidationTextInput::new(String::new()).required(true);
    assert!(!input.is_valid());
    assert_eq!(input.error_message().map(|s| s.as_str()), Some("required input is empty"));
    input.edit_content("hello".to_string());
    assert!(input.is_valid());
    assert!(input.was_edited());
    assert_eq!(input.value(), "hello");

    let mut number = ValidationTextInput::new("12".to_string()).validation(Validation::Number);
    assert!(number.is_valid());
    number.edit_content("twelve".to_string());
    assert_eq!(number.error_message().map(|s| s.as_str()), Some("invalid number"));
    number.edit_content(String::new());
    assert_eq!(number.error_message().map(|s| s.as_str()), Some("invalid number"));

    let mut non_empty = ValidationTextInput::new(String::new()).validation(Validation::NonEmptyNumber);
    assert_eq!(non_empty.error_message().map(|s| s.as_str()), Some("empty input"));
    non_empty.set_content("3600".to_string());
    assert!(non_empty.is_valid());
    assert!(!non_empty.was_edited());
}

#[test]
fn currency_inputs() {
    let mut input = CurrencyInput::default();
    assert_eq!(input.currency(), None);
    input.perform(CurrencyAction::Input("1_234,5".to_string()));
    assert_eq!(input.currency(), Some("1234.5".to_string()));
    input.perform(CurrencyAction::Input("12x".to_string()));
    assert_eq!(input.currency(), None);
    input.set_value("-3.25".to_string());
    assert_eq!(input.currency(), Some("-3.25".to_string()));
    input.clear();
    assert_eq!(input.input().value(), "");
    let given = CurrencyInput::new("0".to_string(), false);
    assert_eq!(given.currency(), Some("0".to_string()));
}
