use temperatureconverter::parse::{numeric_part, parse_temp_input, ParseError};
use temperatureconverter::reading::{Conversion, Reading};
use temperatureconverter::scale::{derived_scales, Scale};

fn parse(input: &str) -> Result<Reading<f32>, ParseError> {
    parse_temp_input(input, numeric_part(input).parse::<f32>().ok())
}

fn scales_of(input: &str) -> (Scale, Scale, Scale) {
    let r = parse(input).unwrap();
    let c = Conversion::assemble(r, 1.0f32, 2.0f32);
    (c.original.scale, c.first.scale, c.second.scale)
}

#[test]
fn error_kinds_are_told_apart() {
    assert_eq!(parse(""), Err(ParseError::EmptyInput));
    assert_eq!(parse("10 k"), Err(ParseError::ContainsSpace));
    assert_eq!(parse("10t"), Err(ParseError::UnknownScale('t')));
    assert_eq!(parse("10qwes"), Err(ParseError::InvalidNumber("10qwe".to_string())));
}

#[test]
fn empty_input_message() {
    assert_eq!(ParseError::EmptyInput.message(), "empty input".to_string());
}

#[test]
fn lone_scale_letter_is_an_invalid_number() {
    assert_eq!(parse("c"), Err(ParseError::InvalidNumber(String::new())));
    assert_eq!(parse("x"), Err(ParseError::InvalidNumber(String::new())));
}

#[test]
fn number_error_comes_before_scale_error() {
    assert_eq!(parse("abcz"), Err(ParseError::InvalidNumber("abc".to_string())));
    assert_eq!(parse("1 2z"), Err(ParseError::ContainsSpace));
}

#[test]
fn non_ascii_scale_character_is_reported() {
    assert_eq!(parse("12\u{b0}"), Err(ParseError::UnknownScale('\u{b0}')));
    assert_eq!(ParseError::UnknownScale('\u{b0}').message(), "unknown scale \u{b0}".to_string());
}

#[test]
fn numeric_part_counts_characters() {
    assert_eq!(numeric_part("12.5C"), "12.5".to_string());
    assert_eq!(numeric_part("a\u{20ac}bc"), "a\u{20ac}b".to_string());
    assert_eq!(numeric_part("k"), String::new());
    assert_eq!(numeric_part(""), String::new());
}

#[test]
fn fractional_input_parses() {
    let r = parse("-10.5C").unwrap();
    assert_eq!(r.scale, Scale::Celsius);
    assert!(r.value == -10.5);
}

#[test]
fn letter_case_does_not_matter() {
    assert_eq!(parse("10c"), parse("10C"));
    assert_eq!(parse("10f"), parse("10F"));
    assert_eq!(parse("10k"), parse("10K"));
    assert_eq!(parse("-3.25k"), parse("-3.25K"));
}

#[test]
fn negative_zero_reads_as_zero() {
    for (neg, pos) in [("-0C", "0C"), ("-0F", "0F"), ("-0K", "0K")] {
        let a = parse(neg).unwrap();
        let b = parse(pos).unwrap();
        assert_eq!(a.scale, b.scale);
        assert!(a.value == 0.0);
        assert_eq!(scales_of(neg), scales_of(pos));
    }
}

#[test]
fn original_reading_comes_first() {
    let r = Reading { scale: Scale::Fahrenheit, value: 98.6f32 };
    let c = Conversion::assemble(r, 310.15f32, 37.0f32);
    assert_eq!(c.original, r);
    assert_eq!(c.first, Reading { scale: Scale::Kelvin, value: 310.15f32 });
    assert_eq!(c.second, Reading { scale: Scale::Celsius, value: 37.0f32 });
}

#[test]
fn derived_scale_order() {
    assert_eq!(derived_scales(Scale::Kelvin), (Scale::Celsius, Scale::Fahrenheit));
    assert_eq!(derived_scales(Scale::Celsius), (Scale::Kelvin, Scale::Fahrenheit));
    assert_eq!(derived_scales(Scale::Fahrenheit), (Scale::Kelvin, Scale::Celsius));
}

#[test]
fn end_to_end_ten_celsius() {
    assert_eq!(scales_of("10C"), (Scale::Celsius, Scale::Kelvin, Scale::Fahrenheit));
    assert!(parse("10C").unwrap().value == 10.0);
}

#[test]
fn end_to_end_ten_fahrenheit() {
    assert_eq!(scales_of("10F"), (Scale::Fahrenheit, Scale::Kelvin, Scale::Celsius));
    assert!(parse("10F").unwrap().value == 10.0);
}

#[test]
fn end_to_end_ten_kelvin() {
    assert_eq!(scales_of("10K"), (Scale::Kelvin, Scale::Celsius, Scale::Fahrenheit));
    assert!(parse("10K").unwrap().value == 10.0);
}

#[test]
fn end_to_end_large_celsius() {
    assert_eq!(scales_of("1234C"), (Scale::Celsius, Scale::Kelvin, Scale::Fahrenheit));
    assert!(parse("1234C").unwrap().value == 1234.0);
}

#[test]
fn end_to_end_negative_fahrenheit() {
    assert_eq!(scales_of("-1234F"), (Scale::Fahrenheit, Scale::Kelvin, Scale::Celsius));
    assert!(parse("-1234F").unwrap().value == -1234.0);
}

#[test]
fn scale_letters_and_names() {
    assert_eq!(Scale::from_char('c'), Some(Scale::Celsius));
    assert_eq!(Scale::from_char('F'), Some(Scale::Fahrenheit));
    assert_eq!(Scale::from_char('k'), Some(Scale::Kelvin));
    assert_eq!(Scale::from_char('r'), None);
    assert_eq!(Scale::from_char('0'), None);
    assert_eq!(Scale::Kelvin.name(), "Kelvin".to_string());
    assert_eq!(Scale::Celsius.name(), "Celsius".to_string());
    assert_eq!(Scale::Fahrenheit.name(), "Fahrenheit".to_string());
}
