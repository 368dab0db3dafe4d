use oasgen_core::integer::{
    integer_bounds, primitive_integer_schema, IntegerBounds, IntegerFormat as Format,
    IntegerPrimitive,
};
use openapiv3::{IntegerFormat, IntegerType, SchemaKind, Type, VariantOrUnknownOrEmpty};

fn integer_type(p: IntegerPrimitive) -> IntegerType {
    match primitive_integer_schema(p).kind {
        SchemaKind::Type(Type::Integer(i)) => i,
        other => panic!("expected an integer schema, got {other:?}"),
    }
}

#[test]
fn integer_primitives_carry_format_and_bounds() {
    let expected = [
        ("i8", integer_type(IntegerPrimitive::I8), IntegerFormat::Int32, -128, 127),
        ("u8", integer_type(IntegerPrimitive::U8), IntegerFormat::Int32, 0, 255),
        (
            "i16",
            integer_type(IntegerPrimitive::I16),
            IntegerFormat::Int32,
            -32768,
            32767,
        ),
        ("u16", integer_type(IntegerPrimitive::U16), IntegerFormat::Int32, 0, 65535),
        (
            "i32",
            integer_type(IntegerPrimitive::I32),
            IntegerFormat::Int32,
            i32::MIN as i64,
            i32::MAX as i64,
        ),
        (
            "u32",
            integer_type(IntegerPrimitive::U32),
            IntegerFormat::Int64,
            0,
            u32::MAX as i64,
        ),
        (
            "i64",
            integer_type(IntegerPrimitive::I64),
            IntegerFormat::Int64,
            i64::MIN,
            i64::MAX,
        ),
        (
            "isize",
            integer_type(IntegerPrimitive::Isize),
            IntegerFormat::Int64,
            i64::MIN,
            i64::MAX,
        ),
    ];

    for (name, actual, format, minimum, maximum) in expected {
        assert_eq!(
            actual.format,
            VariantOrUnknownOrEmpty::Item(format),
            "{name} format"
        );
        assert_eq!(actual.minimum, Some(minimum), "{name} minimum");
        assert_eq!(actual.maximum, Some(maximum), "{name} maximum");
    }
}

#[test]
fn unsigned_64_bit_maxima_are_clamped_to_the_representable_range() {
    for (name, actual) in [
        ("u64", integer_type(IntegerPrimitive::U64)),
        ("usize", integer_type(IntegerPrimitive::Usize)),
    ] {
        assert_eq!(
            actual.format,
            VariantOrUnknownOrEmpty::Item(IntegerFormat::Int64),
            "{name} format"
        );
        assert_eq!(actual.minimum, Some(0), "{name} minimum");
        assert_eq!(actual.maximum, Some(i64::MAX), "{name} maximum");
    }
}

#[test]
fn integer_bounds_match_the_type_ranges() {
    assert_eq!(
        integer_bounds(IntegerPrimitive::U8),
        IntegerBounds { format: Format::Int32, minimum: 0, maximum: 255 }
    );
    assert_eq!(
        integer_bounds(IntegerPrimitive::I16),
        IntegerBounds { format: Format::Int32, minimum: -32768, maximum: 32767 }
    );
    assert_eq!(
        integer_bounds(IntegerPrimitive::U32),
        IntegerBounds { format: Format::Int64, minimum: 0, maximum: 4294967295 }
    );
    assert_eq!(
        integer_bounds(IntegerPrimitive::Usize),
        IntegerBounds { format: Format::Int64, minimum: 0, maximum: i64::MAX }
    );
}

#[test]
fn every_value_of_a_narrow_type_lies_within_its_bounds() {
    let b = integer_bounds(IntegerPrimitive::I8);
    for v in i8::MIN..=i8::MAX {
        assert!(b.minimum <= v as i64 && v as i64 <= b.maximum);
    }
    assert!(b.minimum > i8::MIN as i64 - 1 && b.maximum < i8::MAX as i64 + 1);
}

#[test]
fn integer_schemas_carry_no_other_facets() {
    let schema = primitive_integer_schema(IntegerPrimitive::U16);
    assert!(!schema.data.nullable);
    let i = integer_type(IntegerPrimitive::U16);
    assert_eq!(i.multiple_of, None);
    assert!(!i.exclusive_minimum && !i.exclusive_maximum);
    assert!(i.enumeration.is_empty());
}
