# env_validator

Typed validation of environment variables with batch error reporting,
written in Verus.

A `Schema` lists variables (string, integer, float, boolean or URL), each
required or optional, with an optional default and an optional list of
accepted texts. `Schema::validate_from` checks a source of variables against
the schema and returns either the parsed values or a `ValidationError` that
holds one message per failing variable, in schema order.

## Layout

- `src/schema.rs` – field types, field specifications, the schema and its builder.
- `src/validate.rs` – the model of validation (`validation`, `errors_of`,
  `values_of`, `field_outcome`) and the verified implementation.
- `src/value.rs` – `EnvValue`, its accessors, display text, equality and conversions.
  A float is held by the bits of its `f64`.
- `src/error.rs` – `ValidationError` and its report text.
- `src/text.rs` – text helpers, and the wrappers around `str::to_lowercase`,
  `i64::from_str` and the `Debug` rendering of a list of strings.
- `src/laws.rs` – properties proved of every schema and source.
- `app/` – reading the process environment, reading floats
  (`f64::from_str`), and `Display`/`Error` impls.

Float texts are read by a function the caller hands to `validate_from`;
the contract states the result in terms of that function's answers.
