use password_store::bridge::MAX_COUNTED_DIGITS;
use password_store::parse::{has_overrun, parse};
use password_store::value::{Member, Number, Value};
use password_store::Error;

fn text(value: &str) -> Value {
    Value::Text(value.to_string())
}

fn member(name: &str, value: Value) -> Member {
    Member { name: name.to_string(), value }
}

#[test]
fn parse_reads_an_object_with_its_members_in_order() {
    let parsed = parse(r#"{"password":"abc","username":"me"}"#).unwrap();
    assert_eq!(
        parsed,
        Value::Object(vec![member("password", text("abc")), member("username", text("me"))])
    );
}

#[test]
fn parse_reads_every_kind_of_node() {
    let parsed = parse(r#"[null, true, false, 7, "seven", [], {}]"#).unwrap();
    assert_eq!(
        parsed,
        Value::Array(vec![
            Value::Null,
            Value::Boolean(true),
            Value::Boolean(false),
            Value::Number(Number { nan: false, positive: true, mantissa: 7, exponent: 0 }),
            text("seven"),
            Value::Array(vec![]),
            Value::Object(vec![]),
        ])
    );
}

#[test]
fn parse_reads_numbers_as_sign_mantissa_and_exponent() {
    assert_eq!(
        parse("-12").unwrap(),
        Value::Number(Number { nan: false, positive: false, mantissa: 12, exponent: 0 })
    );
    assert_eq!(
        parse("1.5").unwrap(),
        Value::Number(Number { nan: false, positive: true, mantissa: 15, exponent: -1 })
    );
    assert_eq!(
        parse("-1.5e3").unwrap(),
        Value::Number(Number { nan: false, positive: false, mantissa: 15, exponent: 2 })
    );
    assert_eq!(
        parse("0.00").unwrap(),
        Value::Number(Number { nan: false, positive: true, mantissa: 0, exponent: -2 })
    );
}

#[test]
fn parse_reads_nested_data() {
    let parsed = parse(r#"{"a":{"b":[{"c":"d"}]}}"#).unwrap();
    assert_eq!(
        parsed,
        Value::Object(vec![member(
            "a",
            Value::Object(vec![member(
                "b",
                Value::Array(vec![Value::Object(vec![member("c", text("d"))])])
            )])
        )])
    );
}

#[test]
fn parse_resolves_escapes_and_keeps_long_texts() {
    assert_eq!(parse(r#""a\"b\\c\ndé""#).unwrap(), text("a\"b\\c\ndé"));
    let long = "x".repeat(100);
    assert_eq!(parse(&format!("\"{}\"", long)).unwrap(), text(&long));
}

#[test]
fn parse_keeps_the_last_of_members_with_one_name() {
    let parsed = parse(r#"{"a":1,"b":2,"a":"three"}"#).unwrap();
    assert_eq!(
        parsed,
        Value::Object(vec![
            member("a", text("three")),
            member("b", Value::Number(Number { nan: false, positive: true, mantissa: 2, exponent: 0 })),
        ])
    );
}

#[test]
fn parse_rejects_text_that_is_no_structured_data() {
    assert!(matches!(parse(""), Err(Error::Json(json::Error::UnexpectedEndOfJson))));
    assert!(matches!(parse("{"), Err(Error::Json(json::Error::UnexpectedEndOfJson))));
    assert!(matches!(
        parse("[\"password\":\"abc\"]"),
        Err(Error::Json(json::Error::UnexpectedCharacter { ch: ':', line: 1, column: 12 }))
    ));
    assert!(matches!(parse("{} x"), Err(Error::Json(json::Error::UnexpectedCharacter { .. }))));
    assert!(matches!(parse("nul"), Err(Error::Json(_))));
}

#[test]
fn a_fraction_that_fills_the_count_is_read() {
    let source = format!("0.{}", "0".repeat(MAX_COUNTED_DIGITS));
    assert!(!has_overrun(source.as_bytes()));
    assert_eq!(
        parse(&source).unwrap(),
        Value::Number(Number { nan: false, positive: true, mantissa: 0, exponent: -32768 })
    );
    let shorter = format!("0.{}", "0".repeat(32_001));
    assert_eq!(
        parse(&shorter).unwrap(),
        Value::Number(Number { nan: false, positive: true, mantissa: 0, exponent: -32001 })
    );
}

#[test]
fn a_fraction_may_go_on_behind_the_digits_that_are_counted() {
    let source = format!("-0.{}{}", "0".repeat(MAX_COUNTED_DIGITS - 20), "1".repeat(25));
    assert!(!has_overrun(source.as_bytes()));
    assert_eq!(
        parse(&source).unwrap(),
        Value::Number(Number {
            nan: false,
            positive: false,
            mantissa: 11_111_111_111_111_111_111,
            exponent: -32768
        })
    );
}

#[test]
fn a_digit_that_the_mantissa_cannot_take_is_not_counted() {
    let source = format!("0.{}{}", "0".repeat(MAX_COUNTED_DIGITS - 19), "9".repeat(30));
    assert!(!has_overrun(source.as_bytes()));
    assert_eq!(
        parse(&source).unwrap(),
        Value::Number(Number {
            nan: false,
            positive: true,
            mantissa: 9_999_999_999_999_999_999,
            exponent: -32768
        })
    );
    let mixed = format!("0.{}1844674407370955161{}", "0".repeat(MAX_COUNTED_DIGITS - 20), "65");
    assert!(!has_overrun(mixed.as_bytes()));
    assert_eq!(
        parse(&mixed).unwrap(),
        Value::Number(Number {
            nan: false,
            positive: true,
            mantissa: 18_446_744_073_709_551_615,
            exponent: -32768
        })
    );
}

#[test]
fn a_number_beyond_the_count_is_rejected_unread() {
    let source = format!("0.{}", "0".repeat(MAX_COUNTED_DIGITS + 1));
    assert!(has_overrun(source.as_bytes()));
    assert!(matches!(parse(&source), Err(Error::Json(json::Error::ExceededDepthLimit))));

    let longer = format!("[1, 0.{}5, 2]", "0".repeat(40_000));
    assert!(has_overrun(longer.as_bytes()));
    assert!(matches!(parse(&longer), Err(Error::Json(json::Error::ExceededDepthLimit))));

    let negative = format!("{{\"a\": -0.{}{}}}", "0".repeat(MAX_COUNTED_DIGITS - 19), "1".repeat(20));
    assert!(has_overrun(negative.as_bytes()));
    assert!(matches!(parse(&negative), Err(Error::Json(json::Error::ExceededDepthLimit))));

    let behind_a_string = format!("[\"a\\\\\", 0.{}]", "0".repeat(MAX_COUNTED_DIGITS + 1));
    assert!(has_overrun(behind_a_string.as_bytes()));
    assert!(matches!(parse(&behind_a_string), Err(Error::Json(json::Error::ExceededDepthLimit))));
}

#[test]
fn a_long_run_of_zeros_in_a_string_is_read() {
    let zeros = "0".repeat(40_000);
    let password = format!(".{}", zeros);
    let parsed = parse(&format!("{{\"password\":\"{}\"}}", password)).unwrap();
    assert_eq!(parsed.get("password"), Some(&text(&password)));

    let number = format!("0.{}", zeros);
    assert_eq!(parse(&format!("\"{}\"", number)).unwrap(), text(&number));
    assert_eq!(
        parse(&format!("[\"\", \"a, {}\"]", number)).unwrap(),
        Value::Array(vec![text(""), text(&format!("a, {}", number))])
    );
}

#[test]
fn a_long_run_of_zeros_behind_an_escape_in_a_string_is_read() {
    let number = format!("0.{}", "0".repeat(40_000));
    assert_eq!(
        parse(&format!("\"say \\\", {}\"", number)).unwrap(),
        text(&format!("say \", {}", number))
    );
    assert_eq!(
        parse(&format!("\"\\\\\\\" {}\"", number)).unwrap(),
        text(&format!("\\\" {}", number))
    );
    assert_eq!(
        parse(&format!("\"\\u0022 {}\"", number)).unwrap(),
        text(&format!("\" {}", number))
    );
    assert_eq!(
        parse(&format!("{{\"{}\": \"{}\"}}", number, number)).unwrap(),
        Value::Object(vec![member(&number, text(&number))])
    );
}

#[test]
fn a_number_with_a_whole_part_is_read_whatever_its_fraction() {
    let zeros = "0".repeat(40_000);
    assert_eq!(
        parse(&format!("1.{}", zeros)).unwrap(),
        Value::Number(Number {
            nan: false,
            positive: true,
            mantissa: 10_000_000_000_000_000_000,
            exponent: -19
        })
    );
    assert_eq!(
        parse(&format!("[-10.{}7]", zeros)).unwrap(),
        Value::Array(vec![Value::Number(Number {
            nan: false,
            positive: false,
            mantissa: 10_000_000_000_000_000_000,
            exponent: -18
        })])
    );
    assert!(!has_overrun(format!("1.{}", zeros).as_bytes()));
    assert!(!has_overrun(format!("120.{}", zeros).as_bytes()));
}

#[test]
fn has_overrun_wants_a_lone_zero_and_a_point_before_the_digits() {
    let zeros = "0".repeat(MAX_COUNTED_DIGITS + 10);
    assert!(!has_overrun(b""));
    assert!(!has_overrun(b"0"));
    assert!(!has_overrun(b"0."));
    assert!(!has_overrun(b"0.0"));
    assert!(!has_overrun(zeros.as_bytes()));
    assert!(!has_overrun(format!(".{}", zeros).as_bytes()));
    assert!(!has_overrun(format!("1{}", zeros).as_bytes()));
    assert!(!has_overrun(format!("00.{}", &zeros[..10]).as_bytes()));
    assert!(has_overrun(format!("0.{}", zeros).as_bytes()));
    assert!(has_overrun(format!(" 0.{}", zeros).as_bytes()));
    assert!(has_overrun(format!("[0.{}", zeros).as_bytes()));
    assert!(has_overrun(format!("-0.{}", zeros).as_bytes()));
}

#[test]
fn has_overrun_counts_one_run_of_digits() {
    let half = "0".repeat(MAX_COUNTED_DIGITS / 2 + 1);
    assert!(!has_overrun(format!("0.{}e{}", half, half).as_bytes()));
    assert!(!has_overrun(format!("0.{} {}", half, half).as_bytes()));
    let most = "0".repeat(MAX_COUNTED_DIGITS);
    assert!(!has_overrun(format!("[0.{}, 0.{}]", most, most).as_bytes()));
    assert!(has_overrun(format!("[0.{}, 0.{}0]", most, most).as_bytes()));
}

#[test]
fn has_overrun_follows_strings_and_their_escapes() {
    let number = format!("0.{}", "0".repeat(MAX_COUNTED_DIGITS + 1));
    assert!(!has_overrun(format!("\"{}\"", number).as_bytes()));
    assert!(!has_overrun(format!("\"\\\" {}\"", number).as_bytes()));
    assert!(!has_overrun(format!("\"{}", number).as_bytes()));
    assert!(has_overrun(format!("\"\" {}", number).as_bytes()));
    assert!(has_overrun(format!("\"\\\\\" {}", number).as_bytes()));
    assert!(has_overrun(format!("\"\\\"\" {}", number).as_bytes()));
    assert!(!has_overrun(format!("\"\\\\\\\" {}", number).as_bytes()));
}

#[test]
fn as_str_gives_the_text_of_a_text_node_only() {
    assert_eq!(text("abc").as_str(), Some("abc"));
    assert_eq!(text("").as_str(), Some(""));
    assert_eq!(Value::Null.as_str(), None);
    assert_eq!(Value::Boolean(true).as_str(), None);
    assert_eq!(Value::Number(Number { nan: false, positive: true, mantissa: 1, exponent: 0 }).as_str(), None);
    assert_eq!(Value::Array(vec![text("abc")]).as_str(), None);
    assert_eq!(Value::Object(vec![member("abc", text("abc"))]).as_str(), None);
}

#[test]
fn as_array_gives_the_items_of_an_array_only() {
    let items = vec![text("a"), Value::Null];
    assert_eq!(Value::Array(vec![text("a"), Value::Null]).as_array(), Some(&items));
    assert_eq!(Value::Array(vec![]).as_array(), Some(&vec![]));
    assert_eq!(text("a").as_array(), None);
    assert_eq!(Value::Object(vec![]).as_array(), None);
    assert_eq!(Value::Null.as_array(), None);
}

#[test]
fn get_finds_a_member_by_its_name() {
    let object = Value::Object(vec![
        member("username", text("me")),
        member("password", text("abc")),
        member("extra", Value::Null),
    ]);
    assert_eq!(object.get("password"), Some(&text("abc")));
    assert_eq!(object.get("username"), Some(&text("me")));
    assert_eq!(object.get("extra"), Some(&Value::Null));
}

#[test]
fn get_finds_nothing_where_there_is_no_such_member() {
    let object = Value::Object(vec![member("username", text("me"))]);
    assert_eq!(object.get("password"), None);
    assert_eq!(object.get("Username"), None);
    assert_eq!(object.get(""), None);
    assert_eq!(Value::Object(vec![]).get("password"), None);
}

#[test]
fn get_finds_nothing_in_a_node_that_is_no_object() {
    assert_eq!(Value::Null.get("password"), None);
    assert_eq!(text("password").get("password"), None);
    assert_eq!(Value::Array(vec![text("password")]).get("password"), None);
}

#[test]
fn get_takes_the_first_of_members_with_one_name() {
    let object = Value::Object(vec![member("a", text("first")), member("a", text("second"))]);
    assert_eq!(object.get("a"), Some(&text("first")));
}

#[test]
fn parse_gives_an_answer_for_every_text_of_a_sample() {
    let alphabet = [
        "{", "}", "[", "]", ":", ",", "\"", "\\", "u", "n", "t", "r", "f", "e", "E", "+", "-", ".",
        "0", "1", "9", " ", "\n", "a", "é", "密", "\u{1F600}", "null", "true", "false", "\\u00e9",
        "\\ud83d", "\\ude00", "\\uD800", "dead", "\u{0}", "\u{7f}", "1e", "0.", "-0",
        "99999999999999999999",
    ];
    let mut state: u64 = 0x2545_F491_4F6C_DD1D;
    let mut accepted = 0;
    let mut rejected = 0;
    for round in 0..20_000 {
        let mut source = String::new();
        for _ in 0..(round % 12) + 1 {
            state ^= state << 13;
            state ^= state >> 7;
            state ^= state << 17;
            source.push_str(alphabet[(state % alphabet.len() as u64) as usize]);
        }
        match parse(&source) {
            Ok(_) => accepted += 1,
            Err(Error::Json(_)) => rejected += 1,
            Err(other) => panic!("unexpected {:?} for {:?}", other, source),
        }
    }
    assert_eq!(accepted + rejected, 20_000);
    assert!(accepted > 0);
    assert!(rejected > accepted);
}

#[test]
fn parse_names_the_character_that_it_did_not_expect() {
    assert!(matches!(
        parse("1é"),
        Err(Error::Json(json::Error::UnexpectedCharacter { ch: 'é', line: 1, column: 2 }))
    ));
    assert!(matches!(
        parse("{\"a\":1}\n密"),
        Err(Error::Json(json::Error::UnexpectedCharacter { ch: '密', .. }))
    ));
    assert!(matches!(
        parse("\"\\ud800\\u0041\""),
        Err(Error::Json(json::Error::FailedUtf8Parsing))
    ));
}

#[test]
fn parse_stops_at_the_depth_that_the_parser_allows() {
    let deep = format!("{}{}", "[".repeat(600), "]".repeat(600));
    assert!(matches!(parse(&deep), Err(Error::Json(json::Error::ExceededDepthLimit))));
    let shallow = format!("{}{}", "[".repeat(100), "]".repeat(100));
    let mut node = parse(&shallow).unwrap();
    let mut depth = 0;
    while let Value::Array(mut items) = node {
        depth += 1;
        match items.pop() {
            Some(item) => node = item,
            None => break,
        }
    }
    assert_eq!(depth, 100);
}

#[test]
fn parse_reads_numbers_with_extreme_exponents() {
    assert_eq!(
        parse("1e99999999999").unwrap(),
        Value::Number(Number { nan: false, positive: true, mantissa: 1, exponent: 32767 })
    );
    assert_eq!(
        parse("-25E-99999999999").unwrap(),
        Value::Number(Number { nan: false, positive: false, mantissa: 25, exponent: -32767 })
    );
}

#[test]
fn parse_gives_an_answer_for_every_text_of_a_sample_with_long_fractions() {
    let long = format!("0.{}", "0".repeat(MAX_COUNTED_DIGITS + 1));
    let edge = format!("0.{}", "0".repeat(MAX_COUNTED_DIGITS));
    let tail = format!("{}1", "0".repeat(MAX_COUNTED_DIGITS - 8));
    let alphabet = [
        "{", "}", "[", "]", ":", ",", "\"", "\\", "\\\"", "\\\\", "u", "n", "e", "E", "+", "-", ".",
        "0", "1", "9", " ", "\n", "a", "é", "null", "true", "\\u0022", "0.", "-0.", "1.", "10.",
        long.as_str(), edge.as_str(), tail.as_str(), long.as_str(), long.as_str(), "\"a\"", "\"\"",
        "[", ",", ":", "\"k\":",
    ];
    let mut state: u64 = 0x9E37_79B9_7F4A_7C15;
    let mut refused = 0;
    let mut accepted = 0;
    let mut accepted_with_a_run = 0;
    for round in 0..4_000 {
        let mut source = String::new();
        for _ in 0..(round % 7) + 1 {
            state ^= state << 13;
            state ^= state >> 7;
            state ^= state << 17;
            source.push_str(alphabet[(state % alphabet.len() as u64) as usize]);
        }
        let guard = has_overrun(source.as_bytes());
        match parse(&source) {
            Ok(_) => {
                assert!(!guard);
                accepted += 1;
                if source.len() > MAX_COUNTED_DIGITS {
                    accepted_with_a_run += 1;
                }
            }
            Err(Error::Json(json::Error::ExceededDepthLimit)) if guard => refused += 1,
            Err(Error::Json(_)) => assert!(!guard),
            Err(other) => panic!("unexpected {:?}", other),
        }
    }
    assert!(refused > 0);
    assert!(accepted > 0);
    assert!(accepted_with_a_run > 0);
}
