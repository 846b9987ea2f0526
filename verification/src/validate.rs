//! Validation of a source of variables against a schema.
//!
//! Every field is resolved in turn: its text comes from the source (an empty
//! text counts as absent) or else from its default; a field with neither is
//! an error when required and skipped otherwise; a text outside the field's
//! choices is an error; otherwise the text is converted to the field's type.
//! All errors are collected, in field order, before any is reported.
use vstd::prelude::*;

use crate::error::ValidationError;
use crate::schema::{FieldModel, FieldSpec, FieldType, Schema};
use crate::text::{
    debug_list, debug_list_text, has_prefix, i64_text_value, is_prefix_of, lowercase,
    all_ascii, ascii_lower, lowercase_text, parse_i64, same_text,
};
use crate::value::{EnvValue, ValueModel};
use vstd::hash_map::StringHashMap;

verus! {

// ---------------------------------------------------------------------------
// The model
// ---------------------------------------------------------------------------

/// The characters of each variable in a source map.
pub open spec fn source_texts(source: Map<Seq<char>, String>) -> Map<Seq<char>, Seq<char>> {
    source.map_values(|s: String| s@)
}

/// The model of each value of a result map.
pub open spec fn value_models(values: Map<Seq<char>, EnvValue>) -> Map<Seq<char>, ValueModel> {
    values.map_values(|v: EnvValue| v@)
}

/// The text a field takes: its variable when present and non-empty,
/// otherwise its default, if it has one.
pub open spec fn field_text(field: FieldModel, source: Map<Seq<char>, Seq<char>>) -> Option<Seq<char>> {
    if source.contains_key(field.name) && source[field.name].len() > 0 {
        Some(source[field.name])
    } else {
        field.default
    }
}

/// The message for a required field with no text.
pub open spec fn missing_message(name: Seq<char>) -> Seq<char> {
    "missing required variable: "@ + name
}

/// The message for a text outside a field's choices, where `listed` is the
/// rendering of the choices.
pub open spec fn choice_message(name: Seq<char>, listed: Seq<char>, raw: Seq<char>) -> Seq<char> {
    name + " must be one of "@ + listed + ", got '"@ + raw + "'"@
}

/// The message for a text that does not convert to a field's type.
pub open spec fn conversion_message(raw: Seq<char>, field_type: FieldType) -> Seq<char> {
    match field_type {
        FieldType::Int => "cannot convert '"@ + raw + "' to int"@,
        FieldType::Float => "cannot convert '"@ + raw + "' to float"@,
        FieldType::Bool => "cannot convert '"@ + raw + "' to bool"@,
        _ => "'"@ + raw + "' is not a valid URL"@,
    }
}

/// The message for a field whose text failed to convert.
pub open spec fn field_message(name: Seq<char>, message: Seq<char>) -> Seq<char> {
    name + ": "@ + message
}

/// The truth value that a lower-cased word names, if any.
pub open spec fn bool_word_value(lower: Seq<char>) -> Option<bool> {
    if lower == "true"@ || lower == "1"@ || lower == "yes"@ || lower == "on"@ {
        Some(true)
    } else if lower == "false"@ || lower == "0"@ || lower == "no"@ || lower == "off"@ {
        Some(false)
    } else {
        None
    }
}

/// The lower-case form of a text: on ASCII text, `A`..`Z` become `a`..`z`
/// and every other character stays; on other text, what `str::to_lowercase`
/// gives.
pub open spec fn lowered(raw: Seq<char>) -> Seq<char> {
    if all_ascii(raw) {
        raw.map_values(|c: char| ascii_lower(c))
    } else {
        lowercase_text(raw)
    }
}

/// Whether a text is accepted as a URL.
pub open spec fn is_url(raw: Seq<char>) -> bool {
    is_prefix_of("http://"@, raw) || is_prefix_of("https://"@, raw)
}

/// The value a text converts to under a field type, or the conversion
/// message. `float` gives the bits of the `f64` a text reads as, if any.
pub open spec fn converted(
    raw: Seq<char>,
    field_type: FieldType,
    float: spec_fn(Seq<char>) -> Option<u64>,
) -> Result<ValueModel, Seq<char>> {
    match field_type {
        FieldType::Str => Ok(ValueModel::Str(raw)),
        FieldType::Int => match i64_text_value(raw) {
            Some(n) => Ok(ValueModel::Int(n)),
            None => Err(conversion_message(raw, field_type)),
        },
        FieldType::Float => match float(raw) {
            Some(b) => Ok(ValueModel::Float(b)),
            None => Err(conversion_message(raw, field_type)),
        },
        FieldType::Bool => match bool_word_value(lowered(raw)) {
            Some(b) => Ok(ValueModel::Bool(b)),
            None => Err(conversion_message(raw, field_type)),
        },
        FieldType::Url => if is_url(raw) {
            Ok(ValueModel::Str(raw))
        } else {
            Err(conversion_message(raw, field_type))
        },
    }
}

/// What validation makes of one field.
pub enum FieldOutcome {
    /// An optional field with no text: left out of the result.
    Absent,
    /// The field failed, with this message.
    Failed(Seq<char>),
    /// The field's value.
    Parsed(ValueModel),
}

/// What validation makes of `field` given `source`.
pub open spec fn field_outcome(
    field: FieldModel,
    source: Map<Seq<char>, Seq<char>>,
    float: spec_fn(Seq<char>) -> Option<u64>,
) -> FieldOutcome {
    match field_text(field, source) {
        None => if field.required {
            FieldOutcome::Failed(missing_message(field.name))
        } else {
            FieldOutcome::Absent
        },
        Some(raw) => {
            if field.choices matches Some(list) && !list.contains(raw) {
                FieldOutcome::Failed(
                    choice_message(field.name, debug_list_text(field.choices->0), raw),
                )
            } else {
                match converted(raw, field.field_type, float) {
                    Ok(v) => FieldOutcome::Parsed(v),
                    Err(m) => FieldOutcome::Failed(field_message(field.name, m)),
                }
            }
        },
    }
}

/// The messages of the failed fields, in field order.
pub open spec fn errors_of(
    fields: Seq<FieldModel>,
    source: Map<Seq<char>, Seq<char>>,
    float: spec_fn(Seq<char>) -> Option<u64>,
) -> Seq<Seq<char>>
    decreases fields.len(),
{
    if fields.len() == 0 {
        Seq::empty()
    } else {
        let earlier = errors_of(fields.drop_last(), source, float);
        match field_outcome(fields.last(), source, float) {
            FieldOutcome::Failed(m) => earlier.push(m),
            _ => earlier,
        }
    }
}

/// The parsed values by field name; a later field of the same name replaces
/// an earlier one.
pub open spec fn values_of(
    fields: Seq<FieldModel>,
    source: Map<Seq<char>, Seq<char>>,
    float: spec_fn(Seq<char>) -> Option<u64>,
) -> Map<Seq<char>, ValueModel>
    decreases fields.len(),
{
    if fields.len() == 0 {
        Map::empty()
    } else {
        let earlier = values_of(fields.drop_last(), source, float);
        match field_outcome(fields.last(), source, float) {
            FieldOutcome::Parsed(v) => earlier.insert(fields.last().name, v),
            _ => earlier,
        }
    }
}

/// The result of validating `source` against `fields`: the values when no
/// field failed, otherwise every failure message.
pub open spec fn validation(
    fields: Seq<FieldModel>,
    source: Map<Seq<char>, Seq<char>>,
    float: spec_fn(Seq<char>) -> Option<u64>,
) -> Result<Map<Seq<char>, ValueModel>, Seq<Seq<char>>> {
    let errors = errors_of(fields, source, float);
    if errors.len() == 0 {
        Ok(values_of(fields, source, float))
    } else {
        Err(errors)
    }
}

// ---------------------------------------------------------------------------
// Reading floats
// ---------------------------------------------------------------------------

/// `parse` may be called on any text, and gives the same answer for texts
/// with the same characters.
pub open spec fn reads_floats_consistently<F: Fn(&str) -> Option<u64>>(parse: F) -> bool {
    &&& forall|s: &str| #[trigger] call_requires(parse, (s,))
    &&& forall|s1: &str, s2: &str, r1: Option<u64>, r2: Option<u64>|
        #![trigger call_ensures(parse, (s1,), r1), call_ensures(parse, (s2,), r2)]
        s1@ == s2@ && call_ensures(parse, (s1,), r1) && call_ensures(parse, (s2,), r2) ==> r1
            == r2
}

/// `parse` may answer `r` for some text with the characters `text`.
pub open spec fn may_read_as<F: Fn(&str) -> Option<u64>>(
    parse: F,
    text: Seq<char>,
    r: Option<u64>,
) -> bool {
    exists|s: &str| s@ == text && #[trigger] call_ensures(parse, (s,), r)
}

/// The answer `parse` gives for a text with the characters `text`.
pub open spec fn float_reading<F: Fn(&str) -> Option<u64>>(parse: F, text: Seq<char>) -> Option<
    u64,
> {
    choose|r: Option<u64>| #[trigger] may_read_as(parse, text, r)
}

/// `float_reading` of `parse`, as a function of the text.
pub open spec fn float_readings<F: Fn(&str) -> Option<u64>>(parse: F) -> spec_fn(Seq<char>) -> Option<u64> {
    |text: Seq<char>| float_reading(parse, text)
}

/// Reads `raw` with `parse`; the answer is `float_reading(parse, raw@)`.
fn read_float<F: Fn(&str) -> Option<u64>>(parse: &F, raw: &str) -> (bits: Option<u64>)
    requires
        reads_floats_consistently(*parse),
    ensures
        bits == float_reading(*parse, raw@),
{
    let bits = parse(raw);
    proof {
        assert(may_read_as(*parse, raw@, bits));
        let r = float_reading(*parse, raw@);
        let s = choose|s: &str| s@ == raw@ && call_ensures(*parse, (s,), r);
        assert(call_ensures(*parse, (s,), r));
        assert(call_ensures(*parse, (raw,), bits));
    }
    bits
}

// ---------------------------------------------------------------------------
// Messages and conversions
// ---------------------------------------------------------------------------

/// The message for a required field with no text.
pub fn missing_error(name: &str) -> (message: String)
    ensures
        message@ == missing_message(name@),
{
    let mut message = String::from_str("missing required variable: ");
    message.append(name);
    message
}

/// The message for a text outside a field's choices; `listed` is the
/// rendering of the choices.
pub fn choice_error(name: &str, listed: &str, raw: &str) -> (message: String)
    ensures
        message@ == choice_message(name@, listed@, raw@),
{
    let mut message = String::from_str(name);
    message.append(" must be one of ");
    message.append(listed);
    message.append(", got '");
    message.append(raw);
    message.append("'");
    message
}

/// The message for a text that does not convert to `field_type`.
pub fn conversion_error(raw: &str, field_type: FieldType) -> (message: String)
    ensures
        message@ == conversion_message(raw@, field_type),
{
    match field_type {
        FieldType::Int => {
            let mut m = String::from_str("cannot convert '");
            m.append(raw);
            m.append("' to int");
            m
        },
        FieldType::Float => {
            let mut m = String::from_str("cannot convert '");
            m.append(raw);
            m.append("' to float");
            m
        },
        FieldType::Bool => {
            let mut m = String::from_str("cannot convert '");
            m.append(raw);
            m.append("' to bool");
            m
        },
        _ => {
            let mut m = String::from_str("'");
            m.append(raw);
            m.append("' is not a valid URL");
            m
        },
    }
}

/// The message for a field whose text failed to convert.
pub fn field_error(name: &str, message: &str) -> (full: String)
    ensures
        full@ == field_message(name@, message@),
{
    let mut full = String::from_str(name);
    full.append(": ");
    full.append(message);
    full
}

/// The truth value a lower-cased word names: `true`, `1`, `yes`, `on` and
/// `false`, `0`, `no`, `off`.
pub fn bool_word(lower: &str) -> (value: Option<bool>)
    ensures
        value == bool_word_value(lower@),
{
    if same_text(lower, "true") || same_text(lower, "1") || same_text(lower, "yes") || same_text(
        lower,
        "on",
    ) {
        Some(true)
    } else if same_text(lower, "false") || same_text(lower, "0") || same_text(lower, "no")
        || same_text(lower, "off") {
        Some(false)
    } else {
        None
    }
}

/// Converts `raw` to a value of `field_type`, or gives the conversion
/// message. Floats are read with `parse_float`.
fn parse_value<F: Fn(&str) -> Option<u64>>(raw: &str, field_type: FieldType, parse_float: &F) -> (r:
    Result<EnvValue, String>)
    requires
        reads_floats_consistently(*parse_float),
    ensures
        match r {
            Ok(v) => converted(raw@, field_type, float_readings(*parse_float)) == Ok::<
                ValueModel,
                Seq<char>,
            >(v@),
            Err(m) => converted(raw@, field_type, float_readings(*parse_float)) == Err::<
                ValueModel,
                Seq<char>,
            >(m@),
        },
{
    match field_type {
        FieldType::Str => Ok(EnvValue::text(raw)),
        FieldType::Int => match parse_i64(raw) {
            Some(n) => Ok(EnvValue::Int(n)),
            None => Err(conversion_error(raw, field_type)),
        },
        FieldType::Float => match read_float(parse_float, raw) {
            Some(b) => Ok(EnvValue::Float(b)),
            None => Err(conversion_error(raw, field_type)),
        },
        FieldType::Bool => {
            let lower = lowercase(raw);
            match bool_word(lower.as_str()) {
                Some(b) => Ok(EnvValue::Bool(b)),
                None => Err(conversion_error(raw, field_type)),
            }
        },
        FieldType::Url => {
            if has_prefix(raw, "http://") || has_prefix(raw, "https://") {
                Ok(EnvValue::text(raw))
            } else {
                Err(conversion_error(raw, field_type))
            }
        },
    }
}

// ---------------------------------------------------------------------------
// One field
// ---------------------------------------------------------------------------

/// Whether `list` holds a string with the characters of `text`.
fn listed(list: &Vec<String>, text: &str) -> (found: bool)
    ensures
        found == list.deep_view().contains(text@),
{
    let mut i: usize = 0;
    while i < list.len()
        invariant
            i <= list@.len(),
            list.deep_view().len() == list@.len(),
            forall|j: int| 0 <= j < i ==> list.deep_view()[j] != text@,
        decreases list@.len() - i,
    {
        if same_text(list[i].as_str(), text) {
            assert(list.deep_view()[i as int] == text@);
            return true;
        }
        i = i + 1;
    }
    false
}

/// The text a field takes from `source` or its default.
fn field_raw(field: &FieldSpec, source: &StringHashMap<String>) -> (raw: Option<String>)
    ensures
        match raw {
            Some(t) => field_text(field@, source_texts(source@)) == Some(t@),
            None => field_text(field@, source_texts(source@)) is None,
        },
{
    match source.get(field.name.as_str()) {
        Some(v) => {
            if !v.as_str().is_empty() {
                return Some(v.clone());
            }
        },
        None => {},
    }
    match &field.default {
        Some(d) => Some(d.clone()),
        None => None,
    }
}

/// What validation makes of one field, as values.
enum FieldResult {
    Absent,
    Failed(String),
    Parsed(EnvValue),
}

/// Validates one field.
fn check_field<F: Fn(&str) -> Option<u64>>(
    field: &FieldSpec,
    source: &StringHashMap<String>,
    parse_float: &F,
) -> (r: FieldResult)
    requires
        reads_floats_consistently(*parse_float),
    ensures
        match (r, field_outcome(field@, source_texts(source@), float_readings(*parse_float))) {
            (FieldResult::Absent, FieldOutcome::Absent) => true,
            (FieldResult::Failed(m), FieldOutcome::Failed(n)) => m@ == n,
            (FieldResult::Parsed(v), FieldOutcome::Parsed(w)) => v@ == w,
            _ => false,
        },
{
    let raw = match field_raw(field, source) {
        Some(raw) => raw,
        None => {
            if field.required {
                return FieldResult::Failed(missing_error(field.name.as_str()));
            } else {
                return FieldResult::Absent;
            }
        },
    };
    match &field.choices {
        Some(list) => {
            if !listed(list, raw.as_str()) {
                let shown = debug_list(list);
                return FieldResult::Failed(
                    choice_error(field.name.as_str(), shown.as_str(), raw.as_str()),
                );
            }
        },
        None => {},
    }
    match parse_value(raw.as_str(), field.field_type, parse_float) {
        Ok(v) => FieldResult::Parsed(v),
        Err(m) => FieldResult::Failed(field_error(field.name.as_str(), m.as_str())),
    }
}

// ---------------------------------------------------------------------------
// The whole schema
// ---------------------------------------------------------------------------

impl Schema {
    /// Validates `source` against the schema, reading float fields with
    /// `parse_float` (which gives the bits of the `f64` a text denotes).
    /// Every failing field contributes one message, in field order; the
    /// values are returned only when no field failed.
    pub fn validate_from<F: Fn(&str) -> Option<u64>>(
        &self,
        source: &StringHashMap<String>,
        parse_float: F,
    ) -> (r: Result<StringHashMap<EnvValue>, ValidationError>)
        requires
            reads_floats_consistently(parse_float),
        ensures
            match r {
                Ok(values) => validation(
                    self@,
                    source_texts(source@),
                    float_readings(parse_float),
                ) == Ok::<Map<Seq<char>, ValueModel>, Seq<Seq<char>>>(value_models(values@)),
                Err(e) => validation(self@, source_texts(source@), float_readings(parse_float))
                    == Err::<Map<Seq<char>, ValueModel>, Seq<Seq<char>>>(e@),
            },
    {
        let fields = self.fields();
        let ghost src = source_texts(source@);
        let ghost fl = float_readings(parse_float);
        let mut errors: Vec<String> = Vec::new();
        let mut values: StringHashMap<EnvValue> = StringHashMap::new();
        let mut i: usize = 0;
        proof {
            assert(self@.take(0) =~= Seq::<FieldModel>::empty());
            assert(value_models(values@) =~= Map::<Seq<char>, ValueModel>::empty());
            assert(errors.deep_view() =~= Seq::<Seq<char>>::empty());
        }
        while i < fields.len()
            invariant
                fields@.map_values(|f: FieldSpec| f@) == self@,
                i <= fields@.len(),
                reads_floats_consistently(parse_float),
                src == source_texts(source@),
                fl == float_readings(parse_float),
                errors.deep_view() == errors_of(self@.take(i as int), src, fl),
                value_models(values@) == values_of(self@.take(i as int), src, fl),
            decreases fields@.len() - i,
        {
            let field = &fields[i];
            let ghost before = self@.take(i as int);
            proof {
                assert(self@[i as int] == field@);
                assert(self@.take(i + 1).drop_last() =~= before);
                assert(self@.take(i + 1).last() == field@);
            }
            match check_field(field, source, &parse_float) {
                FieldResult::Absent => {},
                FieldResult::Failed(m) => {
                    let ghost old_errors = errors.deep_view();
                    errors.push(m);
                    proof {
                        assert(errors.deep_view() =~= old_errors.push(m@));
                    }
                },
                FieldResult::Parsed(v) => {
                    let ghost old_values = values@;
                    let ghost model = v@;
                    values.insert(field.name.clone(), v);
                    proof {
                        assert(value_models(values@) =~= value_models(old_values).insert(
                            field@.name,
                            model,
                        ));
                    }
                },
            }
            i = i + 1;
        }
        proof {
            assert(self@.take(i as int) =~= self@);
        }
        if errors.len() == 0 {
            Ok(values)
        } else {
            Err(ValidationError { errors })
        }
    }
}

} // verus!
