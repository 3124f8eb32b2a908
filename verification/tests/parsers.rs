use exercises::graph_parser::{is_float_text, GraphParser, GraphValue};
use exercises::json_parser::{to_json, JsonParser, JsonValue};

fn text(s: &str) -> GraphValue {
    GraphValue::String(s.to_string())
}

fn number(s: &str) -> GraphValue {
    GraphValue::Number(s.to_string())
}

fn json_number(s: &str) -> JsonValue {
    JsonValue::Number(s.to_string())
}

#[test]
fn graph_parser_test_parse_object() {
    let input =
        r#"{"name": "New York", "population": 83999000, "area": 302.61, "capital": "Albany"}"#;
    let mut parser = GraphParser::new(input);
    let json_value = parser.parse().unwrap();
    assert_eq!(
        json_value,
        GraphValue::Graph(vec![
            (text("name"), text("New York")),
            (text("population"), number("83999000")),
            (text("area"), number("302.61")),
            (text("capital"), text("Albany")),
        ])
    );
}

#[test]
fn graph_parser_test_parse_array() {
    let input = r#"[1, 2, 3, 4, 5]"#;
    let mut parser = GraphParser::new(input);
    let value = parser.parse().unwrap();
    assert_eq!(
        value,
        GraphValue::Array(vec![number("1"), number("2"), number("3"), number("4"), number("5")])
    );
}

#[test]
fn graph_parser_test_parse_string() {
    let input = r#""hello, world""#;
    let mut parser = GraphParser::new(input);
    let value = parser.parse().unwrap();
    assert_eq!(value, GraphValue::String("hello, world".to_string()));
}

#[test]
fn graph_parser_test_parse_number() {
    let input = r#"3.14"#;
    let mut parser = GraphParser::new(input);
    let value = parser.parse().unwrap();
    assert_eq!(value, number("3.14"));
}

#[test]
fn graph_parser_test_parse_null() {
    let input = r#"null"#;
    let mut parser = GraphParser::new(input);
    let value = parser.parse().unwrap();
    assert_eq!(value, GraphValue::Null);
}

#[test]
fn graph_parser_test_parse_boolean() {
    let input = r#"true"#;
    let mut parser = GraphParser::new(input);
    let value = parser.parse().unwrap();
    assert_eq!(value, GraphValue::Boolean(true));

    let input = r#"false"#;
    let mut parser = GraphParser::new(input);
    let value = parser.parse().unwrap();
    assert_eq!(value, GraphValue::Boolean(false));
}

#[test]
fn graph_parser_test_parse_invalid_input() {
    let input =
        r#"{"name": "New York", "population": 83999000, "area": 302.61, "capital": "Albany""#;
    let mut parser = GraphParser::new(input);
    let err = parser.parse().unwrap_err();
    assert_eq!(err.message, "Expected ',' or '}'");
    assert_eq!(err.position, 80);
}

#[test]
fn graph_parser_test_parse_invalid_number() {
    let input = r#"3.14.1"#;
    let mut parser = GraphParser::new(input);
    let err = parser.parse().unwrap_err();
    assert_eq!(err.message, "Invalid number format");
    assert_eq!(err.position, 4);
}

#[test]
fn json_parser_test_parse_object() {
    let input =
        r#"{"name": "New York", "population": 83999000, "area": 302.61, "capital": "Albany"}"#;
    let mut parser = JsonParser::new(input);
    let json_value = parser.parse().unwrap();
    println!("{:?}", json_value)
}

#[test]
fn json_parser_test_parse_array() {
    let input = r#"[1, 2, 3, 4, 5]"#;
    let mut parser = JsonParser::new(input);
    let value = parser.parse().unwrap();
    assert_eq!(
        value,
        JsonValue::Array(vec![
            json_number("1"),
            json_number("2"),
            json_number("3"),
            json_number("4"),
            json_number("5"),
        ])
    );
}

#[test]
fn json_parser_test_parse_string() {
    let input = r#""hello, world""#;
    let mut parser = JsonParser::new(input);
    let value = parser.parse().unwrap();
    assert_eq!(value, JsonValue::String("hello, world".to_string()));
}

#[test]
fn json_parser_test_parse_number() {
    let input = r#"3.14"#;
    let mut parser = JsonParser::new(input);
    let value = parser.parse().unwrap();
    assert_eq!(value, json_number("3.14"));
}

#[test]
fn json_parser_test_parse_null() {
    let input = r#"null"#;
    let mut parser = JsonParser::new(input);
    let value = parser.parse().unwrap();
    assert_eq!(value, JsonValue::Null);
}

#[test]
fn json_parser_test_parse_boolean() {
    let input = r#"true"#;
    let mut parser = JsonParser::new(input);
    let value = parser.parse().unwrap();
    assert_eq!(value, JsonValue::Boolean(true));

    let input = r#"false"#;
    let mut parser = JsonParser::new(input);
    let value = parser.parse().unwrap();
    assert_eq!(value, JsonValue::Boolean(false));
}

#[test]
fn json_parser_test_parse_invalid_input() {
    let input =
        r#"{"name": "New York", "population": 83999000, "area": 302.61, "capital": "Albany""#;
    let mut parser = JsonParser::new(input);
    let err = parser.parse().unwrap_err();
    assert_eq!(err.message, "Expected ',' or '}'");
    assert_eq!(err.position, 80);
}

#[test]
fn json_parser_test_parse_invalid_number() {
    let input = r#"3.14.1"#;
    let mut parser = JsonParser::new(input);
    let err = parser.parse().unwrap_err();
    assert_eq!(err.message, "Invalid number format");
    assert_eq!(err.position, 4);
}

fn failure(input: &str) -> (String, usize) {
    let err = GraphParser::new(input).parse().unwrap_err();
    (err.message, err.position)
}

fn parsed(input: &str) -> GraphValue {
    GraphParser::new(input).parse().unwrap()
}

#[test]
fn nested_values_are_read() {
    assert_eq!(
        parsed(" { \"a\" : [ true , null , { } ] , \"b\" : [ ] } trailing"),
        GraphValue::Graph(vec![
            (
                text("a"),
                GraphValue::Array(vec![
                    GraphValue::Boolean(true),
                    GraphValue::Null,
                    GraphValue::Graph(vec![]),
                ])
            ),
            (text("b"), GraphValue::Array(vec![])),
        ])
    );
    assert_eq!(parsed("[[[]]]"), GraphValue::Array(vec![GraphValue::Array(vec![
        GraphValue::Array(vec![])
    ])]));
    assert_eq!(parsed("\u{a0}\u{3000}\t\n7"), number("7"));
}

#[test]
fn a_comma_may_stand_before_the_closing_bracket() {
    assert_eq!(parsed("[1,]"), GraphValue::Array(vec![number("1")]));
    assert_eq!(parsed("{\"a\":1,}"), GraphValue::Graph(vec![(text("a"), number("1"))]));
}

#[test]
fn a_string_may_end_with_the_text() {
    assert_eq!(parsed("\"abc"), text("abc"));
    assert_eq!(parsed("\""), text(""));
    assert_eq!(parsed("\"a\\\"b"), text("a\\"));
}

#[test]
fn numbers_are_kept_as_they_are_written() {
    assert_eq!(parsed("-1.5e3"), number("-1.5e3"));
    assert_eq!(parsed("1E5"), number("1E5"));
    assert_eq!(parsed(".5"), number(".5"));
    assert_eq!(parsed("5."), number("5."));
    assert_eq!(parsed("1e-5"), number("1e-5"));
    assert_eq!(parsed("12abc"), number("12"));
    assert_eq!(failure("-"), ("Invalid number format".to_string(), 1));
    assert_eq!(failure("."), ("Invalid number format".to_string(), 1));
    assert_eq!(failure("e5"), ("Invalid number format".to_string(), 2));
    assert_eq!(failure("1e"), ("Invalid number format".to_string(), 2));
    assert_eq!(failure("1e5E3"), ("Invalid number format".to_string(), 5));
    assert_eq!(failure("-1e-5"), ("Invalid number format".to_string(), 3));
    assert_eq!(failure("1-2"), ("Invalid number format".to_string(), 3));
}

#[test]
fn float_texts_are_told_as_the_standard_library_tells_them() {
    for s in [
        "0", "1", "-1", "+1", "1.5", ".5", "5.", "1e5", "1E5", "1e+5", "1e-5", "-.5e3", "1.e2",
        "", ".", "-", "+", "e", "e5", "1e", "1e+", ".e5", "-e", "1.2.3", "1e5.0", "--1", "1 ",
        " 1", "0x10", "1_000", "00012", "1e05", "-0", "9".repeat(400).as_str(),
    ] {
        let chars: Vec<char> = s.chars().collect();
        assert_eq!(is_float_text(&chars), s.parse::<f64>().is_ok(), "{:?}", s);
    }
}

#[test]
fn failures_say_what_was_expected() {
    assert_eq!(failure(""), ("Unexpected character".to_string(), 0));
    assert_eq!(failure("  ?"), ("Unexpected character".to_string(), 2));
    assert_eq!(failure("{1}"), ("Expected '\"', found '1'".to_string(), 1));
    assert_eq!(failure("{"), ("Expected '\"' but reached end".to_string(), 1));
    assert_eq!(failure("{\"a\" 1}"), ("Expected ':', found '1'".to_string(), 5));
    assert_eq!(failure("{\"a\""), ("Expected ':' but reached end".to_string(), 4));
    assert_eq!(failure("[1 2]"), ("Expected ',' or ']'".to_string(), 3));
    assert_eq!(failure("[1"), ("Expected ',' or ']'".to_string(), 2));
    assert_eq!(failure("nul"), ("Invalid null value".to_string(), 3));
    assert_eq!(failure("nope"), ("Invalid null value".to_string(), 4));
    assert_eq!(failure("tru"), ("Invalid boolean value".to_string(), 3));
    assert_eq!(failure("falsy"), ("Invalid boolean value".to_string(), 4));
    assert_eq!(failure("fals"), ("Invalid boolean value".to_string(), 4));
    assert_eq!(failure("frue"), ("Invalid boolean value".to_string(), 4));
}

#[test]
fn a_reader_goes_on_where_it_stopped() {
    let mut parser = GraphParser::new("1 2 x");
    assert_eq!(parser.parse().unwrap(), number("1"));
    assert_eq!(parser.parse().unwrap(), number("2"));
    let err = parser.parse().unwrap_err();
    assert_eq!(err.message, "Unexpected character");
    assert_eq!(err.position, 4);
    // A character in place of the e of false is taken in, but not counted.
    let mut parser = GraphParser::new("falsx1");
    assert_eq!(parser.parse().unwrap_err().position, 4);
    assert_eq!(parser.parse().unwrap(), number("1"));
}

#[test]
fn members_of_an_object_are_kept_by_their_keys() {
    let value = JsonParser::new(r#"{"a": 1, "b": 2, "a": 3, "c": {"x": [], "x": null}}"#)
        .parse()
        .unwrap();
    assert_eq!(
        value,
        JsonValue::Object(vec![
            ("a".to_string(), json_number("3")),
            ("b".to_string(), json_number("2")),
            (
                "c".to_string(),
                JsonValue::Object(vec![("x".to_string(), JsonValue::Null)])
            ),
        ])
    );
    let graph = GraphValue::Graph(vec![
        (GraphValue::Null, number("1")),
        (text(""), number("2")),
        (text("k"), GraphValue::Boolean(false)),
    ]);
    assert_eq!(
        to_json(&graph),
        JsonValue::Object(vec![
            ("".to_string(), json_number("2")),
            ("k".to_string(), JsonValue::Boolean(false)),
        ])
    );
}

#[test]
fn float_texts_of_up_to_six_characters_are_told_as_the_standard_library_tells_them() {
    // Every text of up to six characters from those that a number of the
    // readers can hold, and the signs.
    let alphabet = ['0', '7', '.', '-', '+', 'e', 'E'];
    let mut texts: Vec<String> = vec![String::new()];
    let mut start = 0;
    for _ in 0..6 {
        let end = texts.len();
        for i in start..end {
            for c in alphabet {
                let mut longer = texts[i].clone();
                longer.push(c);
                texts.push(longer);
            }
        }
        start = end;
    }
    assert_eq!(texts.len(), 137257);
    for text in texts {
        let chars: Vec<char> = text.chars().collect();
        assert_eq!(is_float_text(&chars), text.parse::<f64>().is_ok(), "{:?}", text);
    }
}
