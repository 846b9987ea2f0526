use env_validator::{EnvValue, Schema, StringHashMap, ValidationError};

fn source(pairs: &[(&str, &str)]) -> StringHashMap<String> {
    let mut map = StringHashMap::new();
    for (k, v) in pairs {
        map.insert(k.to_string(), v.to_string());
    }
    map
}

fn parse_float(text: &str) -> Option<u64> {
    text.parse::<f64>().ok().map(f64::to_bits)
}

fn validate(
    schema: &Schema,
    src: &StringHashMap<String>,
) -> Result<StringHashMap<EnvValue>, ValidationError> {
    schema.validate_from(src, parse_float)
}

fn expect_err(r: Result<StringHashMap<EnvValue>, ValidationError>) -> ValidationError {
    match r {
        Ok(_) => panic!("validation unexpectedly succeeded"),
        Err(e) => e,
    }
}

#[test]
fn test_required_field_present() {
    let src = source(&[("HOST", "localhost")]);
    let result = validate(&Schema::new().string("HOST").build(), &src).unwrap();
    assert_eq!(result.get("HOST").unwrap().as_str().unwrap(), "localhost");
}

#[test]
fn test_required_field_missing() {
    let src = source(&[]);
    let err = expect_err(validate(&Schema::new().string("HOST").build(), &src));
    assert_eq!(err.errors.len(), 1);
    assert!(err.errors[0].contains("missing required variable"));
}

#[test]
fn test_optional_field_missing() {
    let src = source(&[]);
    let result = validate(&Schema::new().string("HOST").required(false).build(), &src).unwrap();
    assert!(!result.contains_key("HOST"));
}

#[test]
fn test_default_value() {
    let src = source(&[]);
    let result =
        validate(&Schema::new().integer("PORT").default_value("3000").build(), &src).unwrap();
    assert_eq!(result.get("PORT").unwrap().as_int().unwrap(), 3000);
}

#[test]
fn test_integer_parsing() {
    let src = source(&[("PORT", "8080")]);
    let result = validate(&Schema::new().integer("PORT").build(), &src).unwrap();
    assert_eq!(result.get("PORT").unwrap().as_int().unwrap(), 8080);
}

#[test]
fn test_integer_invalid() {
    let src = source(&[("PORT", "abc")]);
    let err = expect_err(validate(&Schema::new().integer("PORT").build(), &src));
    assert!(err.errors[0].contains("cannot convert"));
}

#[test]
fn test_float_parsing() {
    let src = source(&[("RATE", "3.14")]);
    let result = validate(&Schema::new().float("RATE").build(), &src).unwrap();
    let rate = f64::from_bits(result.get("RATE").unwrap().as_float_bits().unwrap());
    assert!((rate - 3.14).abs() < f64::EPSILON);
}

#[test]
fn test_boolean_variants() {
    for (input, expected) in &[
        ("true", true),
        ("1", true),
        ("yes", true),
        ("on", true),
        ("false", false),
        ("0", false),
        ("no", false),
        ("off", false),
    ] {
        let src = source(&[("FLAG", input)]);
        let result = validate(&Schema::new().boolean("FLAG").build(), &src).unwrap();
        assert_eq!(result.get("FLAG").unwrap().as_bool().unwrap(), *expected);
    }
}

#[test]
fn test_boolean_invalid() {
    let src = source(&[("FLAG", "maybe")]);
    let err = expect_err(validate(&Schema::new().boolean("FLAG").build(), &src));
    assert!(err.errors[0].contains("cannot convert"));
}

#[test]
fn test_url_valid() {
    let src = source(&[("API", "https://example.com")]);
    let result = validate(&Schema::new().url("API").build(), &src).unwrap();
    assert_eq!(result.get("API").unwrap().as_str().unwrap(), "https://example.com");
}

#[test]
fn test_url_invalid() {
    let src = source(&[("API", "not-a-url")]);
    let err = expect_err(validate(&Schema::new().url("API").build(), &src));
    assert!(err.errors[0].contains("not a valid URL"));
}

#[test]
fn test_choices_valid() {
    let src = source(&[("ENV", "production")]);
    let schema = Schema::new()
        .string("ENV")
        .choices(&["development", "staging", "production"])
        .build();
    let result = validate(&schema, &src).unwrap();
    assert_eq!(result.get("ENV").unwrap().as_str().unwrap(), "production");
}

#[test]
fn test_choices_invalid() {
    let src = source(&[("ENV", "testing")]);
    let schema = Schema::new()
        .string("ENV")
        .choices(&["development", "staging", "production"])
        .build();
    let err = expect_err(validate(&schema, &src));
    assert!(err.errors[0].contains("must be one of"));
}

#[test]
fn test_multiple_errors() {
    let src = source(&[]);
    let schema = Schema::new()
        .string("A")
        .build()
        .string("B")
        .build()
        .string("C")
        .build();
    let err = expect_err(validate(&schema, &src));
    assert_eq!(err.errors.len(), 3);
}

#[test]
fn test_multiple_fields_valid() {
    let src = source(&[("HOST", "localhost"), ("PORT", "8080"), ("DEBUG", "true")]);
    let schema = Schema::new()
        .string("HOST")
        .build()
        .integer("PORT")
        .build()
        .boolean("DEBUG")
        .build();
    let result = validate(&schema, &src).unwrap();
    assert_eq!(result.get("HOST").unwrap().as_str().unwrap(), "localhost");
    assert_eq!(result.get("PORT").unwrap().as_int().unwrap(), 8080);
    assert_eq!(result.get("DEBUG").unwrap().as_bool().unwrap(), true);
}

#[test]
fn test_empty_value_treated_as_missing() {
    let src = source(&[("HOST", "")]);
    let err = expect_err(validate(&Schema::new().string("HOST").build(), &src));
    assert!(err.errors[0].contains("missing required variable"));
}

#[test]
fn test_display_validation_error() {
    let err = ValidationError {
        errors: vec!["error one".to_string(), "error two".to_string()],
    };
    let display = err.report();
    assert!(display.contains("2 validation error(s)"));
    assert!(display.contains("error one"));
    assert!(display.contains("error two"));
}

#[test]
fn test_env_value_partial_eq() {
    assert_eq!(EnvValue::Str("a".into()), EnvValue::Str("a".into()));
    assert_ne!(EnvValue::Str("a".into()), EnvValue::Str("b".into()));
    assert_eq!(EnvValue::Int(1), EnvValue::Int(1));
    assert_ne!(EnvValue::Int(1), EnvValue::Int(2));
    assert_eq!(EnvValue::Float(1.5f64.to_bits()), EnvValue::Float(1.5f64.to_bits()));
    assert_ne!(EnvValue::Float(1.5f64.to_bits()), EnvValue::Float(2.5f64.to_bits()));
    assert_eq!(EnvValue::Bool(true), EnvValue::Bool(true));
    assert_ne!(EnvValue::Bool(true), EnvValue::Bool(false));
    assert_ne!(EnvValue::Int(1), EnvValue::Str("1".into()));
}

#[test]
fn test_env_value_from_impls() {
    assert_eq!(EnvValue::from("hello"), EnvValue::Str("hello".into()));
    assert_eq!(EnvValue::from("hello".to_string()), EnvValue::Str("hello".into()));
    assert_eq!(EnvValue::from(42i64), EnvValue::Int(42));
    assert_eq!(EnvValue::from(true), EnvValue::Bool(true));
}

#[test]
fn test_schema_clone() {
    let src = source(&[("HOST", "localhost")]);
    let schema = Schema::new().string("HOST").build();
    let schema2 = schema.clone();
    let r1 = validate(&schema, &src).unwrap();
    let r2 = validate(&schema2, &src).unwrap();
    assert_eq!(r1.get("HOST"), r2.get("HOST"));
}

#[test]
fn test_validation_error_partial_eq() {
    let e1 = ValidationError { errors: vec!["a".into()] };
    let e2 = ValidationError { errors: vec!["a".into()] };
    let e3 = ValidationError { errors: vec!["b".into()] };
    assert_eq!(e1, e2);
    assert_ne!(e1, e3);
}
