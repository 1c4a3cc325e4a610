//! Conversion tests: each drives the full pipeline from pattern source and
//! input text to a converted record.

use de_regex::{
    from_str, EnumVariant, Error, Field, FieldValue, IntWidth, Record, Schema, Shape,
};

fn field(name: &str, shape: Shape) -> Field {
    Field { name: name.to_string(), shape }
}

fn schema(fields: Vec<Field>) -> Schema {
    Schema { fields }
}

fn entry(name: &str, value: FieldValue) -> (String, FieldValue) {
    (name.to_string(), value)
}

fn test_schema() -> Schema {
    schema(vec![
        field("foo", Shape::Unsigned(IntWidth::W32)),
        field("bar", Shape::Signed(IntWidth::W32)),
    ])
}

fn bool_schema() -> Schema {
    schema(vec![field("v", Shape::Boolean)])
}

fn bool_record(b: bool) -> Record {
    Record { entries: vec![entry("v", FieldValue::Bool(b))] }
}

#[test]
fn test_simple() {
    let regex = r"^(?P<foo>\d*),(?P<bar>-?\d*)$";
    let input = "1,-2";
    let output = from_str(input, regex, &test_schema()).unwrap();

    assert_eq!(
        output,
        Record { entries: vec![entry("foo", FieldValue::Uint(1)), entry("bar", FieldValue::Int(-2))] }
    );
}

#[test]
fn test_bad_regex() {
    let regex = r"^(?P<foo\d*),(?P<bar>\d*)$";
    let input = "1,-2";
    let output = from_str(input, regex, &test_schema());

    assert!(output.is_err());
}

#[test]
fn test_bad_input() {
    let regex = r"^(?P<foo\d*),(?P<bar>\d*)$";
    let input = "";
    let output = from_str(input, regex, &test_schema());

    assert!(output.is_err());
}

#[test]
fn test_missing_group() {
    let regex = r"^(?P<foo>\d*)$";
    let input = "1";
    let output = from_str(input, regex, &test_schema());

    assert!(output.is_err());
}

#[test]
fn test_explicit_positive_int() {
    let regex = r"^(?P<foo>\+?\d*),(?P<bar>[-+]?\d*)$";
    let input = "+1,+2";
    let output = from_str(input, regex, &test_schema()).unwrap();

    assert_eq!(
        output,
        Record { entries: vec![entry("foo", FieldValue::Uint(1)), entry("bar", FieldValue::Int(2))] }
    );
}

const TEST2_PATTERN: &'static str = r"^(?P<f_bool>\w*),(?P<f_u8>\d*),(?P<f_u16>\d*),(?P<f_u32>\d*),(?P<f_u64>\d*),(?P<f_i8>-?\d*),(?P<f_i16>-?\d*),(?P<f_i32>-?\d*),(?P<f_i64>-?\d*),(?P<f_f32>-?\d*\.?\d?),(?P<f_f64>-?\d*\.?\d?),(?P<f_str>\w*)$";

#[test]
fn test_supported_types() {
    // The floating-point fields are captured as text here: textual-to-float
    // conversion is left to the caller layer, outside this library.
    let input = "true,1,2,3,4,-1,-2,-3,-4,1.0,-1.0,foobar";
    let s = schema(vec![
        field("f_bool", Shape::Boolean),
        field("f_u8", Shape::Unsigned(IntWidth::W8)),
        field("f_u16", Shape::Unsigned(IntWidth::W16)),
        field("f_u32", Shape::Unsigned(IntWidth::W32)),
        field("f_u64", Shape::Unsigned(IntWidth::W64)),
        field("f_i8", Shape::Signed(IntWidth::W8)),
        field("f_i16", Shape::Signed(IntWidth::W16)),
        field("f_i32", Shape::Signed(IntWidth::W32)),
        field("f_i64", Shape::Signed(IntWidth::W64)),
        field("f_f32", Shape::Text),
        field("f_f64", Shape::Text),
        field("f_str", Shape::Text),
    ]);
    let output = from_str(input, TEST2_PATTERN, &s).unwrap();

    assert_eq!(
        output,
        Record {
            entries: vec![
                entry("f_bool", FieldValue::Bool(true)),
                entry("f_u8", FieldValue::Uint(1)),
                entry("f_u16", FieldValue::Uint(2)),
                entry("f_u32", FieldValue::Uint(3)),
                entry("f_u64", FieldValue::Uint(4)),
                entry("f_i8", FieldValue::Int(-1)),
                entry("f_i16", FieldValue::Int(-2)),
                entry("f_i32", FieldValue::Int(-3)),
                entry("f_i64", FieldValue::Int(-4)),
                entry("f_f32", FieldValue::Text("1.0".to_string())),
                entry("f_f64", FieldValue::Text("-1.0".to_string())),
                entry("f_str", FieldValue::Text("foobar".to_string())),
            ],
        }
    );
    match &output.entries[9].1 {
        FieldValue::Text(t) => assert_eq!(t.parse::<f32>().unwrap(), 1.0),
        _ => panic!("expected text"),
    }
    match &output.entries[10].1 {
        FieldValue::Text(t) => assert_eq!(t.parse::<f64>().unwrap(), -1.0),
        _ => panic!("expected text"),
    }
}

fn option_schema() -> Schema {
    schema(vec![
        field("foo", Shape::Optional(Box::new(Shape::Unsigned(IntWidth::W32)))),
        field("bar", Shape::Optional(Box::new(Shape::Signed(IntWidth::W32)))),
    ])
}

#[test]
fn test_option() {
    let regex = r"^(?P<foo>\d*),(?P<bar>-?\d*)$";
    let input = "1,-2";
    let output = from_str(input, regex, &option_schema()).unwrap();

    assert_eq!(
        output,
        Record {
            entries: vec![
                entry("foo", FieldValue::Present(Box::new(FieldValue::Uint(1)))),
                entry("bar", FieldValue::Present(Box::new(FieldValue::Int(-2)))),
            ],
        }
    );
}

#[test]
fn test_option_none() {
    let regex = r"^(?P<foo>\d*),(?P<bar>-?\d*)$";
    let input = ",";
    let output = from_str(input, regex, &option_schema()).unwrap();

    assert_eq!(
        output,
        Record {
            entries: vec![entry("foo", FieldValue::Nothing), entry("bar", FieldValue::Nothing)],
        }
    );
}

#[test]
fn test_bool() {
    let regex = r"^(?P<v>(?i)(true|false))$";

    assert_eq!(from_str("true", regex, &bool_schema()).unwrap(), bool_record(true));
    assert_eq!(from_str("false", regex, &bool_schema()).unwrap(), bool_record(false));
    assert_eq!(from_str("TRUE", regex, &bool_schema()).unwrap(), bool_record(true));
    assert_eq!(from_str("FALSE", regex, &bool_schema()).unwrap(), bool_record(false));
    assert_eq!(from_str("trUE", regex, &bool_schema()).unwrap(), bool_record(true));
    assert_eq!(from_str("FAlse", regex, &bool_schema()).unwrap(), bool_record(false));

    let regex = r"^(?P<v>\w*)$";

    assert!(from_str("SOMETHING ELSE", regex, &bool_schema()).is_err());
    assert!(from_str("", regex, &bool_schema()).is_err());
}

#[test]
fn test_uint() {
    let s = schema(vec![field("v", Shape::Unsigned(IntWidth::W32))]);
    let regex = r"^(?P<v>\+?\d+)$";

    assert_eq!(
        from_str("123", regex, &s).unwrap(),
        Record { entries: vec![entry("v", FieldValue::Uint(123))] }
    );
    assert_eq!(
        from_str("+123", regex, &s).unwrap(),
        Record { entries: vec![entry("v", FieldValue::Uint(123))] }
    );
    assert!(from_str("-123", regex, &s).is_err());
}

#[test]
fn test_int() {
    let s = schema(vec![field("v", Shape::Signed(IntWidth::W32))]);
    let regex = r"^(?P<v>[-+]?\d+)$";

    assert_eq!(
        from_str("123", regex, &s).unwrap(),
        Record { entries: vec![entry("v", FieldValue::Int(123))] }
    );
    assert_eq!(
        from_str("+123", regex, &s).unwrap(),
        Record { entries: vec![entry("v", FieldValue::Int(123))] }
    );
    assert_eq!(
        from_str("-123", regex, &s).unwrap(),
        Record { entries: vec![entry("v", FieldValue::Int(-123))] }
    );
    assert!(from_str("#123", regex, &s).is_err());
}

fn float_text(record: &Record) -> f32 {
    match &record.entries[0].1 {
        FieldValue::Text(t) => t.parse::<f32>().unwrap(),
        _ => panic!("expected text"),
    }
}

#[test]
fn test_float() {
    // Captured as text and converted by the caller, as a caller of this
    // library would: floating point stays outside the verified core.
    let s = schema(vec![field("v", Shape::Text)]);
    let regex = r"^(?P<v>[-+]?\d+(\.\d*)?)$";

    assert_eq!(float_text(&from_str("123", regex, &s).unwrap()), 123.0);
    assert_eq!(float_text(&from_str("1.23", regex, &s).unwrap()), 1.23);
    assert_eq!(float_text(&from_str("-123", regex, &s).unwrap()), -123.0);
    assert_eq!(float_text(&from_str("-1.23", regex, &s).unwrap()), -1.23);

    assert!(from_str("#123", regex, &s).is_err());
}

#[test]
fn test_bad_value_error() {
    let regex = r"^(?P<foo>\w*),(?P<bar>-?\d*)$";
    let input = "aaa1,-2";
    let output = from_str(input, regex, &test_schema());

    assert!(
        matches!(output, Err(Error::BadValue { .. })),
        "Expected Error::BadValue got {:?}",
        output
    );
}

#[test]
fn test_newtype() {
    let s = schema(vec![field("v", Shape::Wrapper(Box::new(Shape::Signed(IntWidth::W32))))]);
    let regex = r"^(?P<v>[-+]?\d+)$";

    assert_eq!(
        from_str("123", regex, &s).unwrap(),
        Record { entries: vec![entry("v", FieldValue::Wrapped(Box::new(FieldValue::Int(123))))] }
    );
    assert_eq!(
        from_str("-123", regex, &s).unwrap(),
        Record { entries: vec![entry("v", FieldValue::Wrapped(Box::new(FieldValue::Int(-123))))] }
    );
    assert!(from_str("#123", regex, &s).is_err());
}

#[test]
fn test_enum_simple() {
    let s = schema(vec![field(
        "v",
        Shape::Enumeration(vec![
            EnumVariant { name: "Foo".to_string(), takes_data: false },
            EnumVariant { name: "bar".to_string(), takes_data: false },
            EnumVariant { name: "Baz".to_string(), takes_data: true },
        ]),
    )]);
    let regex = r"^(?P<v>[-+]?\w+)$";

    assert_eq!(
        from_str("Foo", regex, &s).unwrap(),
        Record { entries: vec![entry("v", FieldValue::Variant("Foo".to_string()))] }
    );
    assert_eq!(
        from_str("bar", regex, &s).unwrap(),
        Record { entries: vec![entry("v", FieldValue::Variant("bar".to_string()))] }
    );
    assert!(from_str("foo", regex, &s).is_err());
    assert!(from_str("Baz", regex, &s).is_err());
}
