use env_validator::validate::{
    bool_word, choice_error, conversion_error, field_error, missing_error,
};
use env_validator::{EnvValue, FieldType, Schema, StringHashMap, ValidationError};

fn vars(pairs: &[(&str, &str)]) -> StringHashMap<String> {
    let mut map = StringHashMap::new();
    for (k, v) in pairs {
        map.insert(k.to_string(), v.to_string());
    }
    map
}

fn read_f64(text: &str) -> Option<u64> {
    text.parse::<f64>().ok().map(f64::to_bits)
}

fn run(schema: &Schema, src: &StringHashMap<String>) -> Result<StringHashMap<EnvValue>, ValidationError> {
    schema.validate_from(src, read_f64)
}

fn errors_of(r: Result<StringHashMap<EnvValue>, ValidationError>) -> Vec<String> {
    match r {
        Ok(_) => panic!("validation unexpectedly succeeded"),
        Err(e) => e.errors,
    }
}

#[test]
fn errors_come_one_per_failing_field_in_order() {
    let src = vars(&[("B", "x"), ("C", "ftp://host"), ("D", "7")]);
    let schema = Schema::new()
        .string("A")
        .build()
        .integer("B")
        .build()
        .url("C")
        .build()
        .integer("D")
        .build();
    assert_eq!(
        errors_of(run(&schema, &src)),
        vec![
            "missing required variable: A".to_string(),
            "B: cannot convert 'x' to int".to_string(),
            "C: 'ftp://host' is not a valid URL".to_string(),
        ]
    );
}

#[test]
fn errors_accumulate_across_added_fields() {
    let src = vars(&[("N", "nope")]);
    let first = Schema::new().string("A").build();
    let both = Schema::new().string("A").build().integer("N").build();
    let e1 = errors_of(run(&first, &src));
    let e2 = errors_of(run(&both, &src));
    assert_eq!(e2.len(), e1.len() + 1);
    assert_eq!(e2[0], e1[0]);
    assert_eq!(e2[1], "N: cannot convert 'nope' to int");
}

#[test]
fn choice_error_lists_the_choices() {
    let src = vars(&[("ENV", "testing")]);
    let schema = Schema::new()
        .string("ENV")
        .choices(&["development", "staging", "production"])
        .build();
    assert_eq!(
        errors_of(run(&schema, &src)),
        vec!["ENV must be one of [\"development\", \"staging\", \"production\"], got 'testing'"
            .to_string()]
    );
}

#[test]
fn choices_are_checked_before_conversion() {
    let src = vars(&[("N", "4")]);
    let schema = Schema::new().integer("N").choices(&["1", "2"]).build();
    let errors = errors_of(run(&schema, &src));
    assert!(errors[0].starts_with("N must be one of"));
    let ok = run(&Schema::new().integer("N").choices(&["4"]).build(), &src).unwrap();
    assert_eq!(ok.get("N").unwrap().as_int(), Some(4));
}

#[test]
fn float_and_bool_messages() {
    let src = vars(&[("R", "abc"), ("F", "perhaps")]);
    let schema = Schema::new().float("R").build().boolean("F").build();
    assert_eq!(
        errors_of(run(&schema, &src)),
        vec![
            "R: cannot convert 'abc' to float".to_string(),
            "F: cannot convert 'perhaps' to bool".to_string(),
        ]
    );
}

#[test]
fn bool_words_ignore_case() {
    for (input, expected) in &[("TRUE", true), ("Yes", true), ("ON", true), ("Off", false), ("FALSE", false), ("nO", false)] {
        let src = vars(&[("FLAG", input)]);
        let result = run(&Schema::new().boolean("FLAG").build(), &src).unwrap();
        assert_eq!(result.get("FLAG").unwrap().as_bool(), Some(*expected));
    }
}

#[test]
fn integer_text_rules() {
    let cases: &[(&str, Option<i64>)] = &[
        ("+5", Some(5)),
        ("-7", Some(-7)),
        ("0042", Some(42)),
        ("9223372036854775807", Some(i64::MAX)),
        ("-9223372036854775808", Some(i64::MIN)),
        ("9223372036854775808", None),
        (" 5", None),
        ("5 ", None),
        ("-", None),
        ("+", None),
        ("1_000", None),
    ];
    for (text, expected) in cases {
        let src = vars(&[("N", text)]);
        let r = run(&Schema::new().integer("N").build(), &src);
        match expected {
            Some(n) => assert_eq!(r.unwrap().get("N").unwrap().as_int(), Some(*n)),
            None => assert_eq!(
                errors_of(r),
                vec![format!("N: cannot convert '{}' to int", text)]
            ),
        }
    }
}

#[test]
fn url_needs_an_http_prefix() {
    for (text, ok) in &[("http://", true), ("https://x", true), ("HTTP://x", false), ("http:/x", false), ("", false)] {
        let src = vars(&[("U", text)]);
        let r = run(&Schema::new().url("U").required(false).build(), &src);
        if text.is_empty() {
            assert!(!r.unwrap().contains_key("U"));
        } else if *ok {
            assert_eq!(r.unwrap().get("U").unwrap().as_str(), Some(*text));
        } else {
            assert!(errors_of(r)[0].ends_with("is not a valid URL"));
        }
    }
}

#[test]
fn default_stands_in_for_empty_and_is_itself_checked() {
    let src = vars(&[("PORT", "")]);
    let ok = run(&Schema::new().integer("PORT").default_value("3000").build(), &src).unwrap();
    assert_eq!(ok.get("PORT").unwrap().as_int(), Some(3000));
    let bad = run(&Schema::new().integer("PORT").default_value("x").build(), &src);
    assert_eq!(errors_of(bad), vec!["PORT: cannot convert 'x' to int".to_string()]);
    let empty_default = run(&Schema::new().string("S").default_value("").build(), &src).unwrap();
    assert_eq!(empty_default.get("S").unwrap().as_str(), Some(""));
}

#[test]
fn optional_empty_is_left_out() {
    let src = vars(&[("HOST", "")]);
    let r = run(&Schema::new().string("HOST").required(false).build(), &src).unwrap();
    assert!(!r.contains_key("HOST"));
    assert_eq!(r.len(), 0);
}

#[test]
fn unnamed_variables_are_ignored() {
    let schema = Schema::new().integer("PORT").build();
    let a = run(&schema, &vars(&[("PORT", "1")])).unwrap();
    let b = run(&schema, &vars(&[("PORT", "1"), ("OTHER", "zzz")])).unwrap();
    assert_eq!(a.len(), 1);
    assert_eq!(b.len(), 1);
    assert_eq!(a.get("PORT"), b.get("PORT"));
}

#[test]
fn later_field_of_same_name_wins() {
    let src = vars(&[("X", "12")]);
    let schema = Schema::new().string("X").build().integer("X").build();
    let r = run(&schema, &src).unwrap();
    assert_eq!(r.get("X").unwrap(), &EnvValue::Int(12));
}

#[test]
fn required_fields_are_present_on_success() {
    let src = vars(&[("A", "a"), ("B", "2")]);
    let schema = Schema::new()
        .string("A")
        .build()
        .integer("B")
        .build()
        .boolean("C")
        .required(false)
        .build();
    let r = run(&schema, &src).unwrap();
    assert!(r.contains_key("A") && r.contains_key("B") && !r.contains_key("C"));
}

#[test]
fn report_text_exactly() {
    let err = ValidationError {
        errors: vec!["error one".to_string(), "error two".to_string()],
    };
    assert_eq!(err.report(), "2 validation error(s):\n  - error one\n  - error two\n");
    let many = ValidationError { errors: vec!["e".to_string(); 10] };
    assert!(many.report().starts_with("10 validation error(s):\n"));
    let none = ValidationError { errors: vec![] };
    assert_eq!(none.report(), "0 validation error(s):\n");
}

#[test]
fn float_values_compare_by_bits() {
    let nan = EnvValue::Float(f64::NAN.to_bits());
    assert_eq!(nan, nan.clone());
    assert_ne!(EnvValue::Float(0.0f64.to_bits()), EnvValue::Float((-0.0f64).to_bits()));
}

#[test]
fn accessors_answer_only_their_kind() {
    let s = EnvValue::text("x");
    assert_eq!(s.as_str(), Some("x"));
    assert_eq!(s.as_int(), None);
    assert_eq!(s.as_bool(), None);
    assert_eq!(s.as_float_bits(), None);
    let b = EnvValue::from(false);
    assert_eq!(b.as_bool(), Some(false));
    assert_eq!(b.as_str(), None);
    assert_eq!(EnvValue::Float(7).as_float_bits(), Some(7));
    assert_eq!(EnvValue::from(-3i64).as_int(), Some(-3));
}

#[test]
fn message_builders() {
    assert_eq!(missing_error("A"), "missing required variable: A");
    assert_eq!(choice_error("E", "[\"a\"]", "b"), "E must be one of [\"a\"], got 'b'");
    assert_eq!(conversion_error("q", FieldType::Int), "cannot convert 'q' to int");
    assert_eq!(conversion_error("q", FieldType::Float), "cannot convert 'q' to float");
    assert_eq!(conversion_error("q", FieldType::Bool), "cannot convert 'q' to bool");
    assert_eq!(conversion_error("q", FieldType::Url), "'q' is not a valid URL");
    assert_eq!(field_error("N", "m"), "N: m");
}

#[test]
fn bool_word_table() {
    for w in ["true", "1", "yes", "on"] {
        assert_eq!(bool_word(w), Some(true));
    }
    for w in ["false", "0", "no", "off"] {
        assert_eq!(bool_word(w), Some(false));
    }
    for w in ["TRUE", "y", "", "2"] {
        assert_eq!(bool_word(w), None);
    }
}

#[test]
fn builder_settings_land_in_the_field() {
    let schema = Schema::new()
        .string("A")
        .required(false)
        .default_value("d")
        .choices(&["d", "e"])
        .build()
        .integer("B")
        .build();
    let copy = schema.clone();
    let src = vars(&[]);
    let r = run(&copy, &src).err().unwrap();
    assert_eq!(r.errors, vec!["missing required variable: B".to_string()]);
    let ok = run(&schema, &vars(&[("B", "1")])).unwrap();
    assert_eq!(ok.get("A").unwrap().as_str(), Some("d"));
}

#[test]
fn display_text_of_each_kind() {
    assert_eq!(EnvValue::Str("hello".into()).display_text(), Some("hello".to_string()));
    assert_eq!(EnvValue::Int(42).display_text(), Some("42".to_string()));
    assert_eq!(EnvValue::Int(-7).display_text(), Some("-7".to_string()));
    assert_eq!(EnvValue::Int(0).display_text(), Some("0".to_string()));
    assert_eq!(EnvValue::Int(i64::MIN).display_text(), Some(i64::MIN.to_string()));
    assert_eq!(EnvValue::Int(i64::MAX).display_text(), Some(i64::MAX.to_string()));
    assert_eq!(EnvValue::Bool(true).display_text(), Some("true".to_string()));
    assert_eq!(EnvValue::Bool(false).display_text(), Some("false".to_string()));
    assert_eq!(EnvValue::Float(3.14f64.to_bits()).display_text(), None);
}

#[test]
fn displayed_values_read_back() {
    for n in [0i64, 7, -7, 3000, i64::MIN, i64::MAX] {
        let text = EnvValue::Int(n).display_text().unwrap();
        let src = vars(&[("N", &text)]);
        let r = run(&Schema::new().integer("N").build(), &src).unwrap();
        assert_eq!(r.get("N").unwrap(), &EnvValue::Int(n));
    }
    for b in [true, false] {
        let text = EnvValue::Bool(b).display_text().unwrap();
        let src = vars(&[("B", &text)]);
        let r = run(&Schema::new().boolean("B").build(), &src).unwrap();
        assert_eq!(r.get("B").unwrap(), &EnvValue::Bool(b));
    }
}
