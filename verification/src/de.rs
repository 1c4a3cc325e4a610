//! The field converter and the record conversion it drives: each captured
//! value is converted into its schema field's requested shape, and the
//! per-field results are assembled into a record in schema field order.

use crate::capture::{captures_of, extract, named_captures, regex_pattern, spec_lookup, CaptureSet};
use crate::error::{Error, SpecError};
use crate::scalar::{
    bool_of_text, parse_bool, parse_signed, parse_unsigned, signed_val, unsigned_val,
    valid_signed, valid_unsigned, width_limit,
};
use crate::schema::{
    signed_mag_max, width_max, EnumVariant, Field, FieldValue, Record, Schema, Shape, SpecValue,
};
use regex::Regex;
use vstd::prelude::*;
use vstd::string::StringExecFns;

verus! {

/// Why a captured text could not be converted into a shape: the text does not
/// denote a value of the shape, or the shape is one this converter declines
/// to produce from flat text.
pub enum Fault {
    BadText,
    Unsupported,
}

/// The message carried by the error for an unsupported shape.
pub open spec fn unsupported_msg() -> Seq<char> {
    "unsupported target shape"@
}

/// The first declared variant whose name equals `t`, if any.
pub open spec fn find_variant(vs: Seq<EnumVariant>, t: Seq<char>) -> Option<EnumVariant>
    decreases vs.len(),
{
    if vs.len() == 0 {
        None
    } else if vs[0].name@ == t {
        Some(vs[0])
    } else {
        find_variant(vs.drop_first(), t)
    }
}

/// What converting the captured text `text` into `shape` yields: the
/// converted value, or the reason it fails.
pub open spec fn spec_convert(text: Seq<char>, shape: Shape) -> Result<SpecValue, Fault>
    decreases shape,
{
    match shape {
        Shape::Boolean => match bool_of_text(text) {
            Some(b) => Ok(SpecValue::Bool(b)),
            None => Err(Fault::BadText),
        },
        Shape::Unsigned(w) => if valid_unsigned(text) && unsigned_val(text) <= width_max(w) {
            Ok(SpecValue::Uint(unsigned_val(text) as u64))
        } else {
            Err(Fault::BadText)
        },
        Shape::Signed(w) => if valid_signed(text) && -(signed_mag_max(w, true) as int)
            <= signed_val(text) && signed_val(text) <= signed_mag_max(w, false) as int {
            Ok(SpecValue::Int(signed_val(text) as i64))
        } else {
            Err(Fault::BadText)
        },
        Shape::Text => Ok(SpecValue::Text(text)),
        Shape::Optional(inner) => if text.len() == 0 {
            Ok(SpecValue::Nothing)
        } else {
            match spec_convert(text, *inner) {
                Ok(v) => Ok(SpecValue::Present(Box::new(v))),
                Err(f) => Err(f),
            }
        },
        Shape::Wrapper(inner) => match spec_convert(text, *inner) {
            Ok(v) => Ok(SpecValue::Wrapped(Box::new(v))),
            Err(f) => Err(f),
        },
        Shape::Enumeration(vs) => match find_variant(vs@, text) {
            Some(v) => if v.takes_data {
                Err(Fault::BadText)
            } else {
                Ok(SpecValue::Variant(text))
            },
            None => Err(Fault::BadText),
        },
        Shape::Unsupported => Err(Fault::Unsupported),
    }
}

/// The error a conversion fault surfaces as, for the group `name` whose
/// captured text was `value`.
pub open spec fn fault_error(f: Fault, name: Seq<char>, value: Seq<char>) -> SpecError {
    match f {
        Fault::BadText => SpecError::BadValue { name, value },
        Fault::Unsupported => SpecError::Custom(unsupported_msg()),
    }
}

/// One captured value: the capture group's name and the text it captured.
#[derive(Debug, PartialEq, Eq)]
pub struct Value {
    pub name: String,
    pub value: String,
}

/// Finds the first declared variant named like `text`, as an index into `vs`.
fn find_variant_index(vs: &Vec<EnumVariant>, text: &String) -> (r: Option<usize>)
    ensures
        r matches Some(j) ==> j < vs.len() && find_variant(vs@, text@) == Some(vs@[j as int]),
        r is None <==> find_variant(vs@, text@) is None,
{
    let n = vs.len();
    let mut i: usize = 0;
    proof {
        assert(vs@.skip(0) =~= vs@);
    }
    while i < n
        invariant
            0 <= i <= n,
            n == vs.len(),
            find_variant(vs@, text@) == find_variant(vs@.skip(i as int), text@),
        decreases n - i,
    {
        proof {
            assert(vs@.skip(i as int)[0] == vs@[i as int]);
            assert(vs@.skip(i as int).drop_first() =~= vs@.skip(i + 1));
        }
        if vs[i].name == *text {
            return Some(i);
        }
        i = i + 1;
    }
    proof {
        assert(vs@.skip(n as int) =~= Seq::<EnumVariant>::empty());
    }
    None
}

impl Value {
    /// Converts the captured text into the requested shape, or reports why it
    /// cannot be.
    pub fn parse(&self, shape: &Shape) -> (r: Result<FieldValue, Error>)
        ensures
            r is Ok <==> spec_convert(self.value@, *shape) is Ok,
            r matches Ok(v) ==> v@ == spec_convert(self.value@, *shape)->Ok_0,
            r matches Err(e) ==> e@ == fault_error(
                spec_convert(self.value@, *shape)->Err_0,
                self.name@,
                self.value@,
            ),
        decreases shape,
    {
        match shape {
            Shape::Boolean => match parse_bool(self.value.as_str()) {
                Some(b) => Ok(FieldValue::Bool(b)),
                None => Err(self.get_parse_error()),
            },
            Shape::Unsigned(w) => {
                let limit = width_limit(*w);
                match parse_unsigned(self.value.as_str(), limit) {
                    Some(n) => Ok(FieldValue::Uint(n)),
                    None => Err(self.get_parse_error()),
                }
            },
            Shape::Signed(w) => match parse_signed(self.value.as_str(), *w) {
                Some(n) => Ok(FieldValue::Int(n)),
                None => Err(self.get_parse_error()),
            },
            Shape::Text => Ok(FieldValue::Text(self.value.clone())),
            Shape::Optional(inner) => if self.value.as_str().is_empty() {
                Ok(FieldValue::Nothing)
            } else {
                match self.parse(&**inner) {
                    Ok(v) => Ok(FieldValue::Present(Box::new(v))),
                    Err(e) => Err(e),
                }
            },
            Shape::Wrapper(inner) => match self.parse(&**inner) {
                Ok(v) => Ok(FieldValue::Wrapped(Box::new(v))),
                Err(e) => Err(e),
            },
            Shape::Enumeration(vs) => match find_variant_index(vs, &self.value) {
                Some(j) => if vs[j].takes_data {
                    Err(self.get_parse_error())
                } else {
                    Ok(FieldValue::Variant(self.value.clone()))
                },
                None => Err(self.get_parse_error()),
            },
            Shape::Unsupported => Err(Error::Custom("unsupported target shape".to_owned())),
        }
    }

    /// The error reported when this captured value cannot be converted.
    pub fn get_parse_error(&self) -> (e: Error)
        ensures
            e@ == (SpecError::BadValue { name: self.name@, value: self.value@ }),
    {
        Error::BadValue { name: self.name.clone(), value: self.value.clone() }
    }
}

/// The message carried by the error for a schema field with no same-named
/// capture group.
pub open spec fn missing_field_msg(name: Seq<char>) -> Seq<char> {
    "missing field `"@ + name + "`"@
}

/// What one schema field resolves to against a capture set: the conversion of
/// its captured text, no value when an optional field's group is absent, and
/// an error when a required field's group is absent.
pub open spec fn spec_convert_field(caps: Seq<(Seq<char>, Seq<char>)>, field: Field) -> Result<
    SpecValue,
    SpecError,
> {
    match spec_lookup(caps, field.name@) {
        Some(text) => match spec_convert(text, field.shape) {
            Ok(v) => Ok(v),
            Err(f) => Err(fault_error(f, field.name@, text)),
        },
        None => if field.shape is Optional {
            Ok(SpecValue::Nothing)
        } else {
            Err(SpecError::Custom(missing_field_msg(field.name@)))
        },
    }
}

/// Resolves one schema field against the capture set.
pub fn convert_field(caps: &CaptureSet, field: &Field) -> (r: Result<FieldValue, Error>)
    ensures
        r is Ok <==> spec_convert_field(caps@, *field) is Ok,
        r matches Ok(v) ==> v@ == spec_convert_field(caps@, *field)->Ok_0,
        r matches Err(e) ==> e@ == spec_convert_field(caps@, *field)->Err_0,
{
    match caps.lookup(&field.name) {
        Some(text) => {
            let v = Value { name: field.name.clone(), value: text };
            v.parse(&field.shape)
        },
        None => match &field.shape {
            Shape::Optional(_) => Ok(FieldValue::Nothing),
            _ => {
                let mut m = "missing field `".to_owned();
                m.append(field.name.as_str());
                m.append("`");
                Err(Error::Custom(m))
            },
        },
    }
}

/// What converting every schema field against a capture set yields: the
/// record entries in schema field order, or the error of the first field that
/// fails.
pub open spec fn spec_convert_record(caps: Seq<(Seq<char>, Seq<char>)>, fields: Seq<Field>)
    -> Result<Seq<(Seq<char>, SpecValue)>, SpecError>
    decreases fields.len(),
{
    if fields.len() == 0 {
        Ok(Seq::empty())
    } else {
        match spec_convert_record(caps, fields.drop_last()) {
            Err(e) => Err(e),
            Ok(rest) => match spec_convert_field(caps, fields.last()) {
                Ok(v) => Ok(rest.push((fields.last().name@, v))),
                Err(e) => Err(e),
            },
        }
    }
}

/// A field conversion error within a prefix of the schema decides the whole
/// record conversion.
proof fn lemma_record_prefix_err(caps: Seq<(Seq<char>, Seq<char>)>, fields: Seq<Field>, i: int)
    requires
        0 <= i <= fields.len(),
        spec_convert_record(caps, fields.take(i)) is Err,
    ensures
        spec_convert_record(caps, fields) == spec_convert_record(caps, fields.take(i)),
    decreases fields.len() - i,
{
    if i < fields.len() {
        assert(fields.take(i + 1).drop_last() =~= fields.take(i));
        lemma_record_prefix_err(caps, fields, i + 1);
    } else {
        assert(fields.take(i) =~= fields);
    }
}

/// Converts every schema field against the capture set, in schema field
/// order, stopping at the first field that fails.
pub fn convert_record(caps: &CaptureSet, schema: &Schema) -> (r: Result<Record, Error>)
    ensures
        r is Ok <==> spec_convert_record(caps@, schema.fields@) is Ok,
        r matches Ok(rec) ==> rec@ == spec_convert_record(caps@, schema.fields@)->Ok_0,
        r matches Err(e) ==> e@ == spec_convert_record(caps@, schema.fields@)->Err_0,
{
    let n = schema.fields.len();
    let mut entries: Vec<(String, FieldValue)> = Vec::new();
    let mut i: usize = 0;
    proof {
        assert(schema.fields@.take(0) =~= Seq::<Field>::empty());
        assert(entries@.map_values(|e: (String, FieldValue)| (e.0@, e.1@)) =~= Seq::<
            (Seq<char>, SpecValue),
        >::empty());
    }
    while i < n
        invariant
            0 <= i <= n,
            n == schema.fields.len(),
            spec_convert_record(caps@, schema.fields@.take(i as int)) == Ok::<_, SpecError>(
                entries@.map_values(|e: (String, FieldValue)| (e.0@, e.1@)),
            ),
        decreases n - i,
    {
        let ghost prev = entries@.map_values(|e: (String, FieldValue)| (e.0@, e.1@));
        proof {
            assert(schema.fields@.take(i + 1).drop_last() =~= schema.fields@.take(i as int));
            assert(schema.fields@.take(i + 1).last() == schema.fields@[i as int]);
        }
        match convert_field(caps, &schema.fields[i]) {
            Ok(v) => {
                let ghost gv = v@;
                entries.push((schema.fields[i].name.clone(), v));
                proof {
                    assert(entries@.map_values(|e: (String, FieldValue)| (e.0@, e.1@)) =~= prev
                        .push((schema.fields@[i as int].name@, gv)));
                }
            },
            Err(e) => {
                proof {
                    lemma_record_prefix_err(caps@, schema.fields@, i + 1);
                }
                return Err(e);
            },
        }
        i = i + 1;
    }
    proof {
        assert(schema.fields@.take(n as int) =~= schema.fields@);
    }
    Ok(Record { entries })
}

/// What the whole conversion of `input` against an already-compiled pattern
/// yields: no match reports [`SpecError::NoMatch`]; a match converts every
/// schema field against the named captures that participated.
pub open spec fn spec_deserialize(pattern: Seq<char>, input: Seq<char>, fields: Seq<Field>)
    -> Result<Seq<(Seq<char>, SpecValue)>, SpecError> {
    match captures_of(pattern, input) {
        None => Err(SpecError::NoMatch),
        Some(raw) => spec_convert_record(named_captures(raw), fields),
    }
}

/// The mathematical image of a conversion outcome.
pub open spec fn outcome_view(r: Result<Record, Error>) -> Result<
    Seq<(Seq<char>, SpecValue)>,
    SpecError,
> {
    match r {
        Ok(rec) => Ok(rec@),
        Err(e) => Err(e@),
    }
}

/// The toplevel conversion driver: an input string paired with the compiled
/// pattern to match it against.
pub struct Deserializer<'de> {
    pub input: &'de str,
    pub regex: Regex,
}

impl<'de> Deserializer<'de> {
    /// Pairs an input string with the compiled pattern to match it against.
    pub fn new(input: &'de str, regex: Regex) -> (d: Deserializer<'de>)
        ensures
            d.input@ == input@,
            d.regex == regex,
    {
        Deserializer { input, regex }
    }

    /// Matches the pattern against the input once, then converts every schema
    /// field from the captures.
    pub fn deserialize_record(&self, schema: &Schema) -> (r: Result<Record, Error>)
        ensures
            outcome_view(r) == spec_deserialize(
                regex_pattern(self.regex),
                self.input@,
                schema.fields@,
            ),
    {
        match extract(&self.regex, self.input) {
            Err(e) => Err(e),
            Ok(caps) => convert_record(&caps, schema),
        }
    }
}

} // verus!
