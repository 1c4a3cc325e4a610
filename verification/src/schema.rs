//! The target shapes a field can request, and the values a conversion
//! produces.

use vstd::prelude::*;

verus! {

/// The bit width of an integer field.
#[derive(Debug, Clone, Copy, PartialEq, Eq)]
pub enum IntWidth {
    W8,
    W16,
    W32,
    W64,
}

/// One variant of an enumeration shape. Only variants that carry no data can
/// be selected by captured text; a variant that carries data may be declared
/// but never selects.
#[derive(Debug, Clone, PartialEq, Eq)]
pub struct EnumVariant {
    /// The name the captured text must equal exactly.
    pub name: String,
    /// Whether the variant carries data, which makes it unselectable.
    pub takes_data: bool,
}

/// The shape a field's captured text must be converted into.
#[derive(Debug, PartialEq, Eq)]
pub enum Shape {
    /// `true` or `false`, ASCII case-insensitively.
    Boolean,
    /// A decimal integer with an optional leading `+`, within the width.
    Unsigned(IntWidth),
    /// A decimal integer with an optional leading `+` or `-`, within the width.
    Signed(IntWidth),
    /// The captured text itself, verbatim.
    Text,
    /// No value when the text is empty or the group is absent, otherwise the
    /// inner conversion.
    Optional(Box<Shape>),
    /// A single-field container around the inner conversion.
    Wrapper(Box<Shape>),
    /// Exactly one of the declared variant names, case-sensitively.
    Enumeration(Vec<EnumVariant>),
    /// A structured shape this converter declines to produce from flat text.
    Unsupported,
}

/// One field of a schema: the capture group name and the requested shape.
#[derive(Debug, PartialEq, Eq)]
pub struct Field {
    pub name: String,
    pub shape: Shape,
}

/// A target schema: the fields of the record to build, in declaration order.
#[derive(Debug, PartialEq, Eq)]
pub struct Schema {
    pub fields: Vec<Field>,
}

/// The mathematical image of a [`FieldValue`], with text as character
/// sequences.
pub enum SpecValue {
    Bool(bool),
    Uint(u64),
    Int(i64),
    Text(Seq<char>),
    Nothing,
    Present(Box<SpecValue>),
    Wrapped(Box<SpecValue>),
    Variant(Seq<char>),
}

/// A successfully converted field value.
#[derive(Debug, PartialEq, Eq)]
pub enum FieldValue {
    /// A boolean field.
    Bool(bool),
    /// An unsigned integer field; the value fits the requested width.
    Uint(u64),
    /// A signed integer field; the value fits the requested width.
    Int(i64),
    /// A text field, the captured text verbatim.
    Text(String),
    /// An optional field that resolved to no value.
    Nothing,
    /// An optional field that resolved to the inner value.
    Present(Box<FieldValue>),
    /// A single-field container around the inner value.
    Wrapped(Box<FieldValue>),
    /// The name of the selected enumeration variant.
    Variant(String),
}

/// The image of a [`FieldValue`] in the mathematical domain.
pub open spec fn field_value_view(v: FieldValue) -> SpecValue
    decreases v,
{
    match v {
        FieldValue::Bool(b) => SpecValue::Bool(b),
        FieldValue::Uint(n) => SpecValue::Uint(n),
        FieldValue::Int(n) => SpecValue::Int(n),
        FieldValue::Text(s) => SpecValue::Text(s@),
        FieldValue::Nothing => SpecValue::Nothing,
        FieldValue::Present(inner) => SpecValue::Present(Box::new(field_value_view(*inner))),
        FieldValue::Wrapped(inner) => SpecValue::Wrapped(Box::new(field_value_view(*inner))),
        FieldValue::Variant(s) => SpecValue::Variant(s@),
    }
}

impl View for FieldValue {
    type V = SpecValue;

    open spec fn view(&self) -> SpecValue {
        field_value_view(*self)
    }
}

/// A converted record: for each schema field, in schema order, its name and
/// converted value.
#[derive(Debug, PartialEq, Eq)]
pub struct Record {
    pub entries: Vec<(String, FieldValue)>,
}

impl View for Record {
    type V = Seq<(Seq<char>, SpecValue)>;

    open spec fn view(&self) -> Seq<(Seq<char>, SpecValue)> {
        self.entries@.map_values(|e: (String, FieldValue)| (e.0@, e.1@))
    }
}

/// The largest value an unsigned field of width `w` can hold.
pub open spec fn width_max(w: IntWidth) -> u64 {
    match w {
        IntWidth::W8 => 0xff,
        IntWidth::W16 => 0xffff,
        IntWidth::W32 => 0xffff_ffff,
        IntWidth::W64 => 0xffff_ffff_ffff_ffff,
    }
}

/// The largest magnitude a signed field of width `w` can hold: one more for a
/// negative value than for a positive one.
pub open spec fn signed_mag_max(w: IntWidth, negative: bool) -> u64 {
    match w {
        IntWidth::W8 => if negative {
            0x80
        } else {
            0x7f
        },
        IntWidth::W16 => if negative {
            0x8000
        } else {
            0x7fff
        },
        IntWidth::W32 => if negative {
            0x8000_0000
        } else {
            0x7fff_ffff
        },
        IntWidth::W64 => if negative {
            0x8000_0000_0000_0000
        } else {
            0x7fff_ffff_ffff_ffff
        },
    }
}

} // verus!
