//! Convert one line of text into a typed record by matching it against a
//! pattern with named capture groups: each group's captured text becomes the
//! value of the schema field of the same name.

mod capture;
mod de;
mod error;
mod laws;
mod scalar;
mod schema;

pub use capture::{CaptureSet, compile, extract, regex_pattern, pattern_compiles, pattern_diagnostic, captures_of, named_captures, spec_lookup, raw_view, raw_entry_view};
pub use de::{Value, Deserializer, Fault, spec_convert, fault_error, find_variant, unsupported_msg, missing_field_msg, spec_convert_field, spec_convert_record, spec_deserialize, outcome_view, convert_field, convert_record};
pub use laws::{lemma_fields_convert, lemma_match_converts, lemma_no_match, lemma_optional_no_value, lemma_missing_required_field, lemma_enum_selects_unit_variants_only, lemma_unsigned_rejects_minus, lemma_deterministic};
pub use error::Error;
pub use error::SpecError;
pub use error::spec_message;
pub use scalar::{is_digit, digit_val, all_digits, digits_val, unsigned_body, valid_unsigned, unsigned_val, sign_negative, signed_body, valid_signed, signed_val, lower_code, eq_ignore_ascii, bool_of_text, parse_unsigned, parse_signed, parse_bool};
pub use schema::{IntWidth, EnumVariant, Shape, Field, Schema, SpecValue, FieldValue, Record, width_max, signed_mag_max};

use vstd::prelude::*;

verus! {

/// What converting `input` against the pattern source `pattern_src` yields:
/// a source the compiler rejects reports its diagnostic, otherwise the
/// conversion against the compiled pattern.
pub open spec fn spec_from_str(pattern_src: Seq<char>, input: Seq<char>, fields: Seq<Field>)
    -> Result<Seq<(Seq<char>, SpecValue)>, SpecError> {
    if pattern_compiles(pattern_src) {
        spec_deserialize(pattern_src, input, fields)
    } else {
        Err(SpecError::BadRegex(pattern_diagnostic(pattern_src)))
    }
}

/// Converts an input string into a record of `schema`, compiling `pattern`
/// first.
pub fn from_str(input: &str, pattern: &str, schema: &Schema) -> (r: Result<Record, Error>)
    ensures
        outcome_view(r) == spec_from_str(pattern@, input@, schema.fields@),
{
    match compile(pattern) {
        Err(e) => Err(e),
        Ok(re) => from_str_regex(input, re, schema),
    }
}

/// Converts an input string into a record of `schema`, matching it against
/// an already-compiled pattern.
pub fn from_str_regex(input: &str, regex: regex::Regex, schema: &Schema) -> (r: Result<
    Record,
    Error,
>)
    ensures
        outcome_view(r) == spec_deserialize(regex_pattern(regex), input@, schema.fields@),
{
    let deserializer = Deserializer::new(input, regex);
    deserializer.deserialize_record(schema)
}

} // verus!
