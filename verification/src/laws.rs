//! The laws of the conversion pipeline, each stated over the same spec
//! functions the executable functions' contracts use.

use crate::capture::{captures_of, named_captures, spec_lookup};
use crate::de::{
    find_variant, missing_field_msg, outcome_view, spec_convert, spec_convert_field,
    spec_convert_record, spec_deserialize,
};
use crate::error::{Error, SpecError};
use crate::schema::{Field, EnumVariant, IntWidth, Record, Shape, SpecValue};
use crate::scalar::is_digit;
use crate::spec_from_str;
use vstd::prelude::*;

verus! {

/// When every schema field converts, the record conversion succeeds and
/// yields, in schema field order, each field's name with its own conversion.
pub proof fn lemma_fields_convert(caps: Seq<(Seq<char>, Seq<char>)>, fields: Seq<Field>)
    requires
        forall|j: int| 0 <= j < fields.len() ==> spec_convert_field(caps, #[trigger] fields[j]) is Ok,
    ensures
        spec_convert_record(caps, fields) is Ok,
        spec_convert_record(caps, fields)->Ok_0.len() == fields.len(),
        forall|j: int|
            0 <= j < fields.len() ==> spec_convert_record(caps, fields)->Ok_0[j] == (
                fields[j].name@,
                spec_convert_field(caps, #[trigger] fields[j])->Ok_0,
            ),
    decreases fields.len(),
{
    if fields.len() > 0 {
        assert(forall|j: int|
            0 <= j < fields.drop_last().len() ==> spec_convert_field(
                caps,
                #[trigger] fields.drop_last()[j],
            ) is Ok);
        lemma_fields_convert(caps, fields.drop_last());
        assert(fields.last() == fields[fields.len() - 1]);
        assert(spec_convert_field(caps, fields[fields.len() - 1]) is Ok);
        let rest = spec_convert_record(caps, fields.drop_last())->Ok_0;
        let whole = rest.push(
            (fields.last().name@, spec_convert_field(caps, fields.last())->Ok_0),
        );
        assert(spec_convert_record(caps, fields) == Ok::<_, SpecError>(whole));
        assert forall|j: int| 0 <= j < fields.len() implies whole[j] == (
            fields[j].name@,
            spec_convert_field(caps, #[trigger] fields[j])->Ok_0,
        ) by {
            if j < fields.len() - 1 {
                assert(whole[j] == rest[j]);
                assert(fields.drop_last()[j] == fields[j]);
                assert(rest[j] == (
                    fields.drop_last()[j].name@,
                    spec_convert_field(caps, fields.drop_last()[j])->Ok_0,
                ));
            } else {
                assert(fields.last() == fields[j]);
            }
        };
    }
}

/// For every pattern whose named groups cover the schema's field names and
/// every input it matches with convertible captures, the conversion succeeds
/// and every field's value equals the per-shape conversion of that field's
/// captured text.
pub proof fn lemma_match_converts(pattern: Seq<char>, input: Seq<char>, fields: Seq<Field>)
    requires
        captures_of(pattern, input) is Some,
        forall|j: int|
            0 <= j < fields.len() ==> spec_convert_field(
                named_captures(captures_of(pattern, input)->Some_0),
                #[trigger] fields[j],
            ) is Ok,
    ensures
        spec_deserialize(pattern, input, fields) is Ok,
        spec_deserialize(pattern, input, fields)->Ok_0.len() == fields.len(),
        forall|j: int|
            0 <= j < fields.len() ==> spec_deserialize(pattern, input, fields)->Ok_0[j] == (
                fields[j].name@,
                spec_convert_field(
                    named_captures(captures_of(pattern, input)->Some_0),
                    #[trigger] fields[j],
                )->Ok_0,
            ),
{
    lemma_fields_convert(named_captures(captures_of(pattern, input)->Some_0), fields);
}

/// For every input the pattern does not match, the conversion fails with the
/// no-match error and never with a different kind.
pub proof fn lemma_no_match(pattern: Seq<char>, input: Seq<char>, fields: Seq<Field>)
    requires
        captures_of(pattern, input) is None,
    ensures
        spec_deserialize(pattern, input, fields) == Err::<Seq<(Seq<char>, SpecValue)>, _>(
            SpecError::NoMatch,
        ),
{
}

/// An optional field resolves to no value both when its group is absent from
/// the capture set and when its group captured the empty string: the two
/// cases are indistinguishable downstream.
pub proof fn lemma_optional_no_value(
    caps: Seq<(Seq<char>, Seq<char>)>,
    field: Field,
    inner: Box<Shape>,
)
    requires
        field.shape == Shape::Optional(inner),
        spec_lookup(caps, field.name@) is None || spec_lookup(caps, field.name@) == Some(
            Seq::<char>::empty(),
        ),
    ensures
        spec_convert_field(caps, field) == Ok::<_, SpecError>(SpecValue::Nothing),
{
}

/// A required schema field with no same-named participating capture group
/// fails the conversion rather than being defaulted silently.
pub proof fn lemma_missing_required_field(caps: Seq<(Seq<char>, Seq<char>)>, field: Field)
    requires
        spec_lookup(caps, field.name@) is None,
        !(field.shape is Optional),
    ensures
        spec_convert_field(caps, field) == Err::<SpecValue, _>(
            SpecError::Custom(missing_field_msg(field.name@)),
        ),
{
}

/// An enumeration selects exactly the declared variants that carry no data:
/// text naming a data-carrying variant fails even though the variant exists.
pub proof fn lemma_enum_selects_unit_variants_only(text: Seq<char>, vs: Vec<EnumVariant>)
    ensures
        spec_convert(text, Shape::Enumeration(vs)) is Ok <==> (find_variant(vs@, text) matches Some(
            v,
        ) && !v.takes_data),
        spec_convert(text, Shape::Enumeration(vs)) matches Ok(val) ==> val == SpecValue::Variant(
            text,
        ),
{
}

/// Text with a leading minus sign never converts as an unsigned integer,
/// whatever the width.
pub proof fn lemma_unsigned_rejects_minus(text: Seq<char>, w: IntWidth)
    requires
        text.len() > 0,
        text[0] == '-',
    ensures
        spec_convert(text, Shape::Unsigned(w)) is Err,
{
    assert(!is_digit(text[0]));
}

/// Conversion is deterministic: two outcomes of converting the same input
/// against the same pattern source and schema are the same result or the
/// same error.
pub proof fn lemma_deterministic(
    r1: Result<Record, Error>,
    r2: Result<Record, Error>,
    pattern_src: Seq<char>,
    input: Seq<char>,
    fields: Seq<Field>,
)
    requires
        outcome_view(r1) == spec_from_str(pattern_src, input, fields),
        outcome_view(r2) == spec_from_str(pattern_src, input, fields),
    ensures
        outcome_view(r1) == outcome_view(r2),
{
}

} // verus!
