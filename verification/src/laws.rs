//! Properties of validation that hold for every schema and source.
use vstd::prelude::*;

use crate::error::{error_report, listed_errors};
use crate::schema::{fresh_field, FieldModel, FieldType};
use crate::text::{all_digits, decimal, digit_char, digits_value, i64_text_value, int_text};
use crate::validate::{
    converted, errors_of, field_outcome, field_text, missing_message, validation, values_of, FieldOutcome,
};
use crate::error::ValidationError;
use crate::value::{display_model, EnvValue, ValueModel};
use vstd::std_specs::cmp::PartialEqSpec;

verus! {

/// Whether `field` fails under `source`.
pub open spec fn fails(
    source: Map<Seq<char>, Seq<char>>,
    float: spec_fn(Seq<char>) -> Option<u64>,
) -> spec_fn(FieldModel) -> bool {
    |field: FieldModel| field_outcome(field, source, float) is Failed
}

/// The message of a failing field (empty for any other field).
pub open spec fn failure_message(
    source: Map<Seq<char>, Seq<char>>,
    float: spec_fn(Seq<char>) -> Option<u64>,
) -> spec_fn(FieldModel) -> Seq<char> {
    |field: FieldModel|
        match field_outcome(field, source, float) {
            FieldOutcome::Failed(m) => m,
            _ => Seq::empty(),
        }
}

/// No two fields share a name.
pub open spec fn distinct_names(fields: Seq<FieldModel>) -> bool {
    forall|i: int, j: int|
        0 <= i < fields.len() && 0 <= j < fields.len() && i != j ==> #[trigger] fields[i].name
            != #[trigger] fields[j].name
}

/// Whether a value is of the kind a field type produces.
pub open spec fn kind_matches(value: ValueModel, field_type: FieldType) -> bool {
    match field_type {
        FieldType::Str | FieldType::Url => value is Str,
        FieldType::Int => value is Int,
        FieldType::Float => value is Float,
        FieldType::Bool => value is Bool,
    }
}

/// Batch reporting: the errors of a validation are the messages of exactly
/// the failing fields, one each, in field order.
pub proof fn law_errors_are_the_failing_fields(
    fields: Seq<FieldModel>,
    source: Map<Seq<char>, Seq<char>>,
    float: spec_fn(Seq<char>) -> Option<u64>,
)
    ensures
        errors_of(fields, source, float) == fields.filter(fails(source, float)).map_values(
            failure_message(source, float),
        ),
    decreases fields.len(),
{
    reveal(Seq::filter);
    if fields.len() > 0 {
        law_errors_are_the_failing_fields(fields.drop_last(), source, float);
        let p = fails(source, float);
        let f = failure_message(source, float);
        let earlier = fields.drop_last().filter(p);
        if p(fields.last()) {
            assert(fields.filter(p) == earlier.push(fields.last()));
            assert(earlier.push(fields.last()).map_values(f) =~= earlier.map_values(f).push(
                f(fields.last()),
            ));
        }
    }
}

/// Validation succeeds exactly when no field fails.
pub proof fn law_ok_exactly_when_no_field_fails(
    fields: Seq<FieldModel>,
    source: Map<Seq<char>, Seq<char>>,
    float: spec_fn(Seq<char>) -> Option<u64>,
)
    ensures
        validation(fields, source, float) is Ok <==> forall|i: int|
            0 <= i < fields.len() ==> !(field_outcome(#[trigger] fields[i], source, float) is Failed),
    decreases fields.len(),
{
    if fields.len() > 0 {
        let rest = fields.drop_last();
        law_ok_exactly_when_no_field_fails(rest, source, float);
        lemma_errors_grow(rest, fields.last(), source, float);
        if validation(fields, source, float) is Ok {
            assert forall|i: int| 0 <= i < fields.len() implies !(field_outcome(
                #[trigger] fields[i],
                source,
                float,
            ) is Failed) by {
                if i < fields.len() - 1 {
                    assert(fields[i] == rest[i]);
                }
            }
        } else {
            if forall|i: int|
                0 <= i < fields.len() ==> !(field_outcome(#[trigger] fields[i], source, float) is Failed) {
                assert forall|i: int| 0 <= i < rest.len() implies !(field_outcome(
                    #[trigger] rest[i],
                    source,
                    float,
                ) is Failed) by {
                    assert(rest[i] == fields[i]);
                }
                assert(!(field_outcome(fields[fields.len() - 1], source, float) is Failed));
            }
        }
    }
}

proof fn lemma_errors_grow(
    fields: Seq<FieldModel>,
    last: FieldModel,
    source: Map<Seq<char>, Seq<char>>,
    float: spec_fn(Seq<char>) -> Option<u64>,
)
    ensures
        errors_of(fields.push(last), source, float).len() >= errors_of(fields, source, float).len(),
        errors_of(fields.push(last), source, float).len() == 0 ==> errors_of(
            fields,
            source,
            float,
        ).len() == 0 && !(field_outcome(last, source, float) is Failed),
{
    assert(fields.push(last).drop_last() =~= fields);
}

/// Errors accumulate: validating more fields keeps the errors of the first
/// ones, in order, and adds those of the others after them.
pub proof fn law_errors_accumulate(
    fields: Seq<FieldModel>,
    more: Seq<FieldModel>,
    source: Map<Seq<char>, Seq<char>>,
    float: spec_fn(Seq<char>) -> Option<u64>,
)
    ensures
        errors_of(fields + more, source, float) == errors_of(fields, source, float) + errors_of(
            more,
            source,
            float,
        ),
    decreases more.len(),
{
    if more.len() == 0 {
        assert(fields + more =~= fields);
        assert(errors_of(fields, source, float) + errors_of(more, source, float) =~= errors_of(
            fields,
            source,
            float,
        ));
    } else {
        law_errors_accumulate(fields, more.drop_last(), source, float);
        assert((fields + more).drop_last() =~= fields + more.drop_last());
        assert((fields + more).last() == more.last());
        let a = errors_of(fields, source, float);
        let b = errors_of(more.drop_last(), source, float);
        match field_outcome(more.last(), source, float) {
            FieldOutcome::Failed(m) => {
                assert((a + b).push(m) =~= a + b.push(m));
            },
            _ => {},
        }
    }
}

/// Values accumulate: validating more fields keeps the values of the first
/// ones, except where a later field of the same name gives its own.
pub proof fn law_values_accumulate(
    fields: Seq<FieldModel>,
    more: Seq<FieldModel>,
    source: Map<Seq<char>, Seq<char>>,
    float: spec_fn(Seq<char>) -> Option<u64>,
)
    ensures
        values_of(fields + more, source, float) == values_of(fields, source, float).union_prefer_right(
            values_of(more, source, float),
        ),
    decreases more.len(),
{
    if more.len() == 0 {
        assert(fields + more =~= fields);
        assert(values_of(fields, source, float).union_prefer_right(values_of(more, source, float))
            =~= values_of(fields, source, float));
    } else {
        law_values_accumulate(fields, more.drop_last(), source, float);
        assert((fields + more).drop_last() =~= fields + more.drop_last());
        assert((fields + more).last() == more.last());
        let a = values_of(fields, source, float);
        let b = values_of(more.drop_last(), source, float);
        match field_outcome(more.last(), source, float) {
            FieldOutcome::Parsed(v) => {
                assert(a.union_prefer_right(b).insert(more.last().name, v) =~= a.union_prefer_right(
                    b.insert(more.last().name, v),
                ));
            },
            _ => {},
        }
    }
}

/// A schema of required fields without defaults, none of whose variables is
/// set to a non-empty text, fails with one "missing required variable"
/// message per field, in field order.
pub proof fn law_missing_required_fields_each_reported(
    fields: Seq<FieldModel>,
    source: Map<Seq<char>, Seq<char>>,
    float: spec_fn(Seq<char>) -> Option<u64>,
)
    requires
        forall|i: int|
            0 <= i < fields.len() ==> (#[trigger] fields[i]).required && fields[i].default is None,
        forall|i: int|
            0 <= i < fields.len() ==> !(source.contains_key(#[trigger] fields[i].name) && source[fields[i].name].len()
                > 0),
    ensures
        errors_of(fields, source, float) == fields.map_values(
            |f: FieldModel| missing_message(f.name),
        ),
    decreases fields.len(),
{
    if fields.len() > 0 {
        let rest = fields.drop_last();
        assert forall|i: int| 0 <= i < rest.len() implies (#[trigger] rest[i]).required
            && rest[i].default is None by {
            assert(rest[i] == fields[i]);
        }
        assert forall|i: int| 0 <= i < rest.len() implies !(source.contains_key(
            #[trigger] rest[i].name,
        ) && source[rest[i].name].len() > 0) by {
            assert(rest[i] == fields[i]);
        }
        law_missing_required_fields_each_reported(rest, source, float);
        let last = fields[fields.len() - 1];
        assert(last.required && last.default is None);
        assert(field_text(last, source) is None);
        assert(fields.map_values(|f: FieldModel| missing_message(f.name)) =~= rest.map_values(
            |f: FieldModel| missing_message(f.name),
        ).push(missing_message(last.name)));
    }
}

/// The names a validation gives values to are names of fields.
proof fn lemma_value_names(
    fields: Seq<FieldModel>,
    source: Map<Seq<char>, Seq<char>>,
    float: spec_fn(Seq<char>) -> Option<u64>,
    name: Seq<char>,
)
    ensures
        values_of(fields, source, float).contains_key(name) ==> exists|i: int|
            0 <= i < fields.len() && (#[trigger] fields[i]).name == name,
    decreases fields.len(),
{
    if fields.len() > 0 {
        let rest = fields.drop_last();
        lemma_value_names(rest, source, float, name);
        if values_of(fields, source, float).contains_key(name) {
            if values_of(rest, source, float).contains_key(name) {
                let i = choose|i: int| 0 <= i < rest.len() && (#[trigger] rest[i]).name == name;
                assert(fields[i] == rest[i]);
            } else {
                assert(fields[fields.len() - 1].name == name);
            }
        }
    }
}

/// A field that yields a value has its name in the result.
proof fn lemma_parsed_fields_present(
    fields: Seq<FieldModel>,
    source: Map<Seq<char>, Seq<char>>,
    float: spec_fn(Seq<char>) -> Option<u64>,
)
    ensures
        forall|i: int|
            0 <= i < fields.len() && field_outcome(#[trigger] fields[i], source, float) is Parsed
                ==> values_of(fields, source, float).contains_key(fields[i].name),
    decreases fields.len(),
{
    if fields.len() > 0 {
        let rest = fields.drop_last();
        lemma_parsed_fields_present(rest, source, float);
        assert forall|i: int|
            0 <= i < fields.len() && field_outcome(#[trigger] fields[i], source, float) is Parsed
                implies values_of(fields, source, float).contains_key(fields[i].name) by {
            if i < fields.len() - 1 {
                assert(fields[i] == rest[i]);
            }
        }
    }
}

/// Only field names appear in the values, and when validation succeeds
/// every required field has a value.
pub proof fn law_result_names(
    fields: Seq<FieldModel>,
    source: Map<Seq<char>, Seq<char>>,
    float: spec_fn(Seq<char>) -> Option<u64>,
)
    ensures
        forall|name: Seq<char>|
            #[trigger] values_of(fields, source, float).contains_key(name) ==> exists|i: int|
                0 <= i < fields.len() && (#[trigger] fields[i]).name == name,
        validation(fields, source, float) is Ok ==> forall|i: int|
            0 <= i < fields.len() && (#[trigger] fields[i]).required ==> values_of(
                fields,
                source,
                float,
            ).contains_key(fields[i].name),
{
    assert forall|name: Seq<char>| #[trigger]
        values_of(fields, source, float).contains_key(name) implies exists|i: int|
        0 <= i < fields.len() && (#[trigger] fields[i]).name == name by {
        lemma_value_names(fields, source, float, name);
    }
    lemma_parsed_fields_present(fields, source, float);
    law_ok_exactly_when_no_field_fails(fields, source, float);
}

/// What a field's value is: the kind its type produces; for a string or URL
/// field, its text itself; for a field with choices, a text among them.
pub proof fn law_field_value_agrees_with_field(
    field: FieldModel,
    source: Map<Seq<char>, Seq<char>>,
    float: spec_fn(Seq<char>) -> Option<u64>,
)
    ensures
        field_outcome(field, source, float) matches FieldOutcome::Parsed(v) ==> {
            &&& field_text(field, source) is Some
            &&& kind_matches(v, field.field_type)
            &&& (field.field_type == FieldType::Str || field.field_type == FieldType::Url)
                ==> v == ValueModel::Str(field_text(field, source)->0)
            &&& field.choices matches Some(list) ==> list.contains(field_text(field, source)->0)
        },
{
}

/// With distinct field names, the values hold, under each field's name,
/// exactly the value that field yields, and nothing for a field that yields
/// none.
pub proof fn law_values_by_field(
    fields: Seq<FieldModel>,
    source: Map<Seq<char>, Seq<char>>,
    float: spec_fn(Seq<char>) -> Option<u64>,
)
    requires
        distinct_names(fields),
    ensures
        forall|i: int|
            0 <= i < fields.len() ==> match field_outcome(#[trigger] fields[i], source, float) {
                FieldOutcome::Parsed(v) => values_of(fields, source, float).contains_key(
                    fields[i].name,
                ) && values_of(fields, source, float)[fields[i].name] == v,
                _ => !values_of(fields, source, float).contains_key(fields[i].name),
            },
    decreases fields.len(),
{
    if fields.len() > 0 {
        let rest = fields.drop_last();
        let last = fields[fields.len() - 1];
        assert forall|i: int, j: int|
            0 <= i < rest.len() && 0 <= j < rest.len() && i != j implies #[trigger] rest[i].name
            != #[trigger] rest[j].name by {
            assert(rest[i] == fields[i] && rest[j] == fields[j]);
        }
        law_values_by_field(rest, source, float);
        assert forall|i: int| 0 <= i < fields.len() implies match field_outcome(
            #[trigger] fields[i],
            source,
            float,
        ) {
            FieldOutcome::Parsed(v) => values_of(fields, source, float).contains_key(
                fields[i].name,
            ) && values_of(fields, source, float)[fields[i].name] == v,
            _ => !values_of(fields, source, float).contains_key(fields[i].name),
        } by {
            if i < fields.len() - 1 {
                assert(fields[i] == rest[i]);
                assert(fields[i].name != last.name);
                lemma_value_names(rest, source, float, fields[i].name);
            } else {
                if !(field_outcome(last, source, float) is Parsed) {
                    lemma_value_names(rest, source, float, last.name);
                    if values_of(rest, source, float).contains_key(last.name) {
                        let j = choose|j: int| 0 <= j < rest.len() && (#[trigger] rest[j]).name == last.name;
                        assert(fields[j] == rest[j]);
                        assert(false);
                    }
                }
            }
        }
    }
}

/// Variables that no field names do not affect validation: neither its
/// errors nor its values.
pub proof fn law_unnamed_variables_ignored(
    fields: Seq<FieldModel>,
    source: Map<Seq<char>, Seq<char>>,
    name: Seq<char>,
    text: Seq<char>,
    float: spec_fn(Seq<char>) -> Option<u64>,
)
    requires
        forall|i: int| 0 <= i < fields.len() ==> (#[trigger] fields[i]).name != name,
    ensures
        errors_of(fields, source.insert(name, text), float) == errors_of(fields, source, float),
        values_of(fields, source.insert(name, text), float) == values_of(fields, source, float),
        validation(fields, source.insert(name, text), float) == validation(fields, source, float),
    decreases fields.len(),
{
    if fields.len() > 0 {
        let rest = fields.drop_last();
        assert forall|i: int| 0 <= i < rest.len() implies (#[trigger] rest[i]).name != name by {
            assert(rest[i] == fields[i]);
        }
        law_unnamed_variables_ignored(rest, source, name, text, float);
        let last = fields[fields.len() - 1];
        assert(last.name != name);
        assert(field_text(last, source.insert(name, text)) == field_text(last, source));
    }
}

/// An empty variable counts as an absent one.
pub proof fn law_empty_is_absent(
    field: FieldModel,
    source: Map<Seq<char>, Seq<char>>,
    float: spec_fn(Seq<char>) -> Option<u64>,
)
    ensures
        field_outcome(field, source.insert(field.name, Seq::empty()), float) == field_outcome(
            field,
            source.remove(field.name),
            float,
        ),
{
    assert(field_text(field, source.insert(field.name, Seq::empty())) == field_text(
        field,
        source.remove(field.name),
    ));
}

/// A default stands in for an absent or empty variable, so a field with a
/// default is never left out of the values.
pub proof fn law_default_fills_in(
    field: FieldModel,
    source: Map<Seq<char>, Seq<char>>,
    float: spec_fn(Seq<char>) -> Option<u64>,
)
    requires
        field.default is Some,
    ensures
        !(source.contains_key(field.name) && source[field.name].len() > 0) ==> field_text(
            field,
            source,
        ) == field.default,
        !(field_outcome(field, source, float) is Absent),
{
}

/// Schemas with the same fields validate every source alike; in particular
/// a clone of a schema validates as the schema does.
pub proof fn law_equal_schemas_validate_alike(
    a: Seq<FieldModel>,
    b: Seq<FieldModel>,
    source: Map<Seq<char>, Seq<char>>,
    float: spec_fn(Seq<char>) -> Option<u64>,
)
    requires
        a == b,
    ensures
        validation(a, source, float) == validation(b, source, float),
{
}

/// `part` stands in `text` from position `k` on.
pub open spec fn occurs_at(part: Seq<char>, text: Seq<char>, k: int) -> bool {
    0 <= k && k + part.len() <= text.len() && text.subrange(k, k + part.len()) == part
}

/// `part` stands somewhere in `text`.
pub open spec fn occurs_in(part: Seq<char>, text: Seq<char>) -> bool {
    exists|k: int| #[trigger] occurs_at(part, text, k)
}

/// The report of a validation error begins with the number of errors and
/// holds the text of every error.
pub proof fn law_report_lists_every_error(errors: Seq<Seq<char>>)
    ensures
        error_report(errors).subrange(0, decimal(errors.len()).len() as int) == decimal(
            errors.len(),
        ),
        forall|i: int| 0 <= i < errors.len() ==> occurs_in(#[trigger] errors[i], error_report(errors)),
{
    let head = decimal(errors.len()) + " validation error(s):\n"@;
    assert(error_report(errors) == head + listed_errors(errors));
    assert(error_report(errors).subrange(0, decimal(errors.len()).len() as int) =~= decimal(
        errors.len(),
    ));
    assert forall|i: int| 0 <= i < errors.len() implies occurs_in(
        #[trigger] errors[i],
        error_report(errors),
    ) by {
        let k = lemma_error_position(errors, i);
        let listed = listed_errors(errors);
        let at = head.len() + k;
        assert((head + listed).subrange(at, at + errors[i].len()) =~= listed.subrange(
            k,
            k + errors[i].len(),
        ));
        assert(occurs_at(errors[i], error_report(errors), at));
    }
}

/// Where error `i` stands in the listing.
proof fn lemma_error_position(errors: Seq<Seq<char>>, i: int) -> (k: int)
    requires
        0 <= i < errors.len(),
    ensures
        0 <= k && k + errors[i].len() <= listed_errors(errors).len(),
        listed_errors(errors).subrange(k, k + errors[i].len()) == errors[i],
    decreases errors.len(),
{
    let rest = errors.drop_last();
    let before = listed_errors(rest);
    let bullet = "  - "@;
    let listed = listed_errors(errors);
    assert(listed == before + bullet + errors.last() + "\n"@);
    if i == errors.len() - 1 {
        let k: int = (before.len() + bullet.len()) as int;
        assert(listed.subrange(k, k + errors[i].len()) =~= errors[i]);
        k
    } else {
        let k = lemma_error_position(rest, i);
        assert(rest[i] == errors[i]);
        assert(listed.subrange(k, k + errors[i].len()) =~= before.subrange(k, k + errors[i].len()));
        k
    }
}

/// Equality of values is an equivalence: reflexive, symmetric and
/// transitive (a float value equals itself even when it is NaN).
pub proof fn law_value_equality_is_an_equivalence(a: EnvValue, b: EnvValue, c: EnvValue)
    ensures
        a.eq_spec(&a),
        a.eq_spec(&b) ==> b.eq_spec(&a),
        a.eq_spec(&b) && b.eq_spec(&c) ==> a.eq_spec(&c),
{
}

/// Float values are equal exactly when their bit patterns are, and values
/// of different kinds are never equal.
pub proof fn law_value_equality_by_kind(x: u64, y: u64, n: i64, b: bool)
    ensures
        EnvValue::Float(x).eq_spec(&EnvValue::Float(y)) <==> x == y,
        !EnvValue::Int(n).eq_spec(&EnvValue::Float(x)),
        !EnvValue::Int(n).eq_spec(&EnvValue::Bool(b)),
        !EnvValue::Float(x).eq_spec(&EnvValue::Bool(b)),
{
}

/// Two validation errors are equal exactly when they hold the same messages
/// in the same order; this equality is an equivalence.
pub proof fn law_error_equality(a: ValidationError, b: ValidationError, c: ValidationError)
    ensures
        a.eq_spec(&b) <==> a.errors.deep_view() == b.errors.deep_view(),
        a.eq_spec(&a),
        a.eq_spec(&b) ==> b.eq_spec(&a),
        a.eq_spec(&b) && b.eq_spec(&c) ==> a.eq_spec(&c),
{
}

/// The field type under which a value of this kind is read.
pub open spec fn kind_field_type(v: ValueModel) -> FieldType {
    match v {
        ValueModel::Str(_) => FieldType::Str,
        ValueModel::Int(_) => FieldType::Int,
        ValueModel::Float(_) => FieldType::Float,
        ValueModel::Bool(_) => FieldType::Bool,
    }
}

proof fn lemma_digit_char(d: nat)
    requires
        d < 10,
    ensures
        '0' <= digit_char(d) <= '9',
        digit_char(d) as nat - '0' as nat == d,
{
}

/// The decimal rendering is a non-empty run of digits that reads back as
/// the number.
proof fn lemma_decimal_reads_back(m: nat)
    ensures
        decimal(m).len() > 0,
        all_digits(decimal(m)),
        digits_value(decimal(m)) == m,
    decreases m,
{
    if m < 10 {
        lemma_digit_char(m);
        assert(decimal(m).drop_last() =~= Seq::<char>::empty());
        assert(digits_value(decimal(m).drop_last()) == 0);
    } else {
        lemma_decimal_reads_back(m / 10);
        lemma_digit_char(m % 10);
        let d = decimal(m);
        assert(d.drop_last() =~= decimal(m / 10));
        assert(d.last() == digit_char(m % 10));
        assert((m / 10) * 10 + m % 10 == m) by (nonlinear_arith);
        assert(digits_value(d) == digits_value(decimal(m / 10)) * 10 + (m % 10));
        assert forall|i: int| 0 <= i < d.len() implies '0' <= #[trigger] d[i] <= '9' by {
            if i < d.len() - 1 {
                assert(d[i] == decimal(m / 10)[i]);
            }
        }
    }
}

/// An integer's decimal text reads back as the same integer.
pub proof fn law_int_text_reads_back(n: i64)
    ensures
        i64_text_value(int_text(n as int)) == Some(n),
{
    if n < 0 {
        let m = (-n) as nat;
        lemma_decimal_reads_back(m);
        let t = int_text(n as int);
        assert(t.drop_first() =~= decimal(m));
        assert(t[0] == '-');
    } else {
        lemma_decimal_reads_back(n as nat);
        let t = decimal(n as nat);
        assert('0' <= t[0] <= '9');
    }
}

/// What a value displays as reads back, under the field type of its kind,
/// as the same value. Floats are left out: their text comes from float
/// formatting, which the library does not model.
pub proof fn law_display_reads_back(v: ValueModel, float: spec_fn(Seq<char>) -> Option<u64>)
    requires
        !(v is Float),
    ensures
        display_model(v) is Some,
        converted(display_model(v)->0, kind_field_type(v), float) == Ok::<ValueModel, Seq<char>>(v),
{
    match v {
        ValueModel::Int(n) => {
            law_int_text_reads_back(n);
        },
        ValueModel::Bool(b) => {
            reveal_strlit("true");
            reveal_strlit("false");
            reveal_strlit("1");
            reveal_strlit("yes");
            reveal_strlit("on");
            let t = display_model(v)->0;
            assert(crate::text::all_ascii(t));
            assert(t.map_values(|c: char| crate::text::ascii_lower(c)) =~= t);
            assert(crate::validate::lowered(t) == t);
        },
        _ => {},
    }
}

/// A variable that is set to a non-empty text gives the field that text,
/// whatever the field's default; only an absent or empty variable lets the
/// default stand in. For a string field without choices the value is then
/// that very text.
pub proof fn law_set_variable_wins(
    field: FieldModel,
    source: Map<Seq<char>, Seq<char>>,
    float: spec_fn(Seq<char>) -> Option<u64>,
)
    ensures
        source.contains_key(field.name) && source[field.name].len() > 0 ==> field_text(
            field,
            source,
        ) == Some(source[field.name]),
        !(source.contains_key(field.name) && source[field.name].len() > 0) ==> field_text(
            field,
            source,
        ) == field.default,
        source.contains_key(field.name) && source[field.name].len() > 0 && field.field_type
            == FieldType::Str && field.choices is None ==> field_outcome(field, source, float)
            == FieldOutcome::Parsed(ValueModel::Str(source[field.name])),
{
}

/// A URL field accepts a text exactly when it begins with `http://` or
/// `https://`, and its value is then the text itself; any other text is an
/// error.
pub proof fn law_url_accepts_http_prefixes(text: Seq<char>, float: spec_fn(Seq<char>) -> Option<u64>)
    ensures
        ((text.len() >= 7 && text.take(7) == "http://"@) || (text.len() >= 8 && text.take(8)
            == "https://"@)) ==> converted(text, FieldType::Url, float) == Ok::<
            ValueModel,
            Seq<char>,
        >(ValueModel::Str(text)),
        !((text.len() >= 7 && text.take(7) == "http://"@) || (text.len() >= 8 && text.take(8)
            == "https://"@)) ==> converted(text, FieldType::Url, float) is Err,
{
    reveal_strlit("http://");
    reveal_strlit("https://");
}

/// A float field takes exactly the reader's answer: the bits it gives, or an
/// error when it gives none.
pub proof fn law_float_is_the_readers_answer(text: Seq<char>, float: spec_fn(Seq<char>) -> Option<u64>)
    ensures
        float(text) matches Some(b) ==> converted(text, FieldType::Float, float) == Ok::<
            ValueModel,
            Seq<char>,
        >(ValueModel::Float(b)),
        float(text) is None ==> converted(text, FieldType::Float, float) is Err,
{
}

/// An integer field takes exactly the texts `i64::from_str` reads, with
/// their value; a string field takes any text as itself.
pub proof fn law_int_and_string_conversions(text: Seq<char>, float: spec_fn(Seq<char>) -> Option<u64>)
    ensures
        i64_text_value(text) matches Some(n) ==> converted(text, FieldType::Int, float) == Ok::<
            ValueModel,
            Seq<char>,
        >(ValueModel::Int(n)),
        i64_text_value(text) is None ==> converted(text, FieldType::Int, float) is Err,
        converted(text, FieldType::Str, float) == Ok::<ValueModel, Seq<char>>(ValueModel::Str(text)),
{
}

/// A boolean field reads, after lower-casing, exactly the words `true`, `1`,
/// `yes`, `on` as true and `false`, `0`, `no`, `off` as false; every other
/// text is an error.
pub proof fn law_bool_reads_the_eight_words(text: Seq<char>, float: spec_fn(Seq<char>) -> Option<u64>)
    ensures
        ({
            let l = crate::validate::lowered(text);
            l == "true"@ || l == "1"@ || l == "yes"@ || l == "on"@
        }) ==> converted(text, FieldType::Bool, float) == Ok::<ValueModel, Seq<char>>(
            ValueModel::Bool(true),
        ),
        ({
            let l = crate::validate::lowered(text);
            l == "false"@ || l == "0"@ || l == "no"@ || l == "off"@
        }) ==> converted(text, FieldType::Bool, float) == Ok::<ValueModel, Seq<char>>(
            ValueModel::Bool(false),
        ),
        !({
            let l = crate::validate::lowered(text);
            l == "true"@ || l == "1"@ || l == "yes"@ || l == "on"@ || l == "false"@ || l == "0"@
                || l == "no"@ || l == "off"@
        }) ==> converted(text, FieldType::Bool, float) is Err,
{
    reveal_strlit("true");
    reveal_strlit("1");
    reveal_strlit("yes");
    reveal_strlit("on");
    reveal_strlit("false");
    reveal_strlit("0");
    reveal_strlit("no");
    reveal_strlit("off");
    let t = seq!["true"@, "1"@, "yes"@, "on"@];
    let f = seq!["false"@, "0"@, "no"@, "off"@];
    assert forall|i: int, j: int| 0 <= i < 4 && 0 <= j < 4 implies #[trigger] t[i] != #[trigger] f[j] by {
        if t[i].len() == f[j].len() {
            assert(t[i][0] != f[j][0]);
        }
    }
    assert(t[0] == "true"@ && t[1] == "1"@ && t[2] == "yes"@ && t[3] == "on"@);
    assert(f[0] == "false"@ && f[1] == "0"@ && f[2] == "no"@ && f[3] == "off"@);
}

/// A field just started by the builder is required, with no default and no
/// choices; so a schema of it alone, validated where its variable is absent,
/// fails with the one message that the variable is missing.
pub proof fn law_fresh_fields_are_required(
    name: Seq<char>,
    field_type: FieldType,
    source: Map<Seq<char>, Seq<char>>,
    float: spec_fn(Seq<char>) -> Option<u64>,
)
    ensures
        fresh_field(name, field_type).required,
        fresh_field(name, field_type).default is None,
        fresh_field(name, field_type).choices is None,
        fresh_field(name, field_type).name == name,
        fresh_field(name, field_type).field_type == field_type,
        !source.contains_key(name) ==> validation(seq![fresh_field(name, field_type)], source, float)
            == Err::<Map<Seq<char>, ValueModel>, Seq<Seq<char>>>(
            seq!["missing required variable: "@ + name],
        ),
{
    let fields = seq![fresh_field(name, field_type)];
    assert(fields.drop_last() =~= Seq::<FieldModel>::empty());
    assert(errors_of(fields.drop_last(), source, float) =~= Seq::<Seq<char>>::empty());
}

/// Lower-casing ignores the case of ASCII letters: on ASCII text, each
/// character `A`..`Z` becomes the matching `a`..`z` and every other
/// character stays where it is.
pub proof fn law_ascii_case_is_ignored(text: Seq<char>)
    requires
        forall|i: int| 0 <= i < text.len() ==> (#[trigger] text[i] as u32) < 128,
    ensures
        crate::validate::lowered(text).len() == text.len(),
        forall|i: int|
            0 <= i < text.len() ==> (#[trigger] crate::validate::lowered(text)[i]) == (if 'A'
                <= text[i] <= 'Z' {
                ((text[i] as u32) + 32) as char
            } else {
                text[i]
            }),
{
}

} // verus!
