use peekaboox::numbers::float_error;
use peekaboox::query::ElementQuery;

fn parse(selector: &str) -> Result<ElementQuery, String> {
    ElementQuery::parse(selector).map_err(|error| error.message)
}

fn library_float_error(text: &str) -> Option<String> {
    let chars: Vec<char> = text.chars().collect();
    float_error(&chars).map(str::to_owned)
}

#[test]
fn float_grammar_agrees_with_std() {
    let samples = [
        "", "0", "0.9", "1.", ".5", ".", "+", "-", "-0.25", "+3", "1e5", "1E5", "1e+5", "1e-5",
        "1e", "1e+", "e5", ".e5", "1.e5", ".5e-3", "inf", "-inf", "+Infinity", "INF", "NaN",
        "nan", "-nan", "infin", "infinit", "abc", "1,5", " 1.5", "1.5 ", "1_000", "0x10", "1..2",
        "1.2.3", "١", "12345678901234567890", "1e400", "--1", "+-1", "1e5.0",
    ];
    for sample in samples {
        let expected = sample.parse::<f32>().err().map(|error| error.to_string());
        assert_eq!(library_float_error(sample), expected, "sample {sample:?}");
    }
}

#[test]
fn bad_confidence_fails_where_it_stands() {
    assert_eq!(
        parse("role=button,min-confidence=abc").unwrap_err(),
        "selector min-confidence must be a float, got \"abc\": invalid float literal"
    );
    assert_eq!(
        parse("confidence=abc,bogus=1").unwrap_err(),
        "selector confidence must be a float, got \"abc\": invalid float literal"
    );
    assert_eq!(
        parse("bogus=1,confidence=abc").unwrap_err(),
        "unknown element selector key \"bogus\""
    );
    assert_eq!(
        parse("confidence>=").unwrap_err(),
        "selector confidence must be a float, got \"\": cannot parse float from empty string"
    );
    assert!(parse("confidence=abc,confidence=0.5").is_err());
}

#[test]
fn good_confidence_is_kept_as_written() {
    let query = parse("role=button,confidence>=0.9").unwrap();
    let clause = query.min_confidence.unwrap();
    assert_eq!(clause.key, "confidence");
    assert_eq!(clause.value, "0.9");
    assert!(parse("min_confidence= -Infinity ").is_ok());
}
