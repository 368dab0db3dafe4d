//! Integer schemas: the OpenAPI `format` and the inclusive value range that
//! describe each Rust integer primitive.

use vstd::prelude::*;

verus! {

/// The OpenAPI `format` values for integer schemas.
#[derive(Clone, Copy, Debug, PartialEq, Eq, Structural)]
pub enum IntegerFormat {
    Int32,
    Int64,
}

/// The Rust integer primitives that have an integer schema.
#[derive(Clone, Copy, Debug, PartialEq, Eq, Structural)]
pub enum IntegerPrimitive {
    I8,
    U8,
    I16,
    U16,
    I32,
    U32,
    I64,
    U64,
    Isize,
    Usize,
}

/// The format and inclusive bounds written into an integer schema.
#[derive(Clone, Copy, Debug, PartialEq, Eq, Structural)]
pub struct IntegerBounds {
    pub format: IntegerFormat,
    pub minimum: i64,
    pub maximum: i64,
}

impl IntegerPrimitive {
    /// The smallest value of the type. Pointer-sized types are described as
    /// their 64-bit counterparts, whatever the target.
    pub open spec fn min_value(self) -> int {
        match self {
            IntegerPrimitive::I8 => i8::MIN as int,
            IntegerPrimitive::I16 => i16::MIN as int,
            IntegerPrimitive::I32 => i32::MIN as int,
            IntegerPrimitive::I64 => i64::MIN as int,
            IntegerPrimitive::Isize => i64::MIN as int,
            _ => 0,
        }
    }

    /// The largest value of the type, pointer-sized types taken as 64-bit.
    pub open spec fn max_value(self) -> int {
        match self {
            IntegerPrimitive::I8 => i8::MAX as int,
            IntegerPrimitive::U8 => u8::MAX as int,
            IntegerPrimitive::I16 => i16::MAX as int,
            IntegerPrimitive::U16 => u16::MAX as int,
            IntegerPrimitive::I32 => i32::MAX as int,
            IntegerPrimitive::U32 => u32::MAX as int,
            IntegerPrimitive::I64 => i64::MAX as int,
            IntegerPrimitive::U64 => u64::MAX as int,
            IntegerPrimitive::Isize => i64::MAX as int,
            IntegerPrimitive::Usize => u64::MAX as int,
        }
    }

    /// Every value of the type fits in a 32-bit signed integer.
    pub open spec fn fits_int32(self) -> bool {
        i32::MIN <= self.min_value() && self.max_value() <= i32::MAX
    }
}

/// `x` moved into the range of `i64`, the type of OpenAPI integer bounds.
pub open spec fn clamp_to_i64(x: int) -> int {
    if x < i64::MIN {
        i64::MIN as int
    } else if x > i64::MAX {
        i64::MAX as int
    } else {
        x
    }
}

/// The schema facets of a primitive: `int32` exactly when the whole range fits
/// in 32 bits, and the type's range clamped to what `i64` bounds can express.
pub open spec fn described_bounds(p: IntegerPrimitive) -> IntegerBounds {
    IntegerBounds {
        format: if p.fits_int32() { IntegerFormat::Int32 } else { IntegerFormat::Int64 },
        minimum: clamp_to_i64(p.min_value()) as i64,
        maximum: clamp_to_i64(p.max_value()) as i64,
    }
}

/// The format and bounds of the integer schema of `p`.
pub fn integer_bounds(p: IntegerPrimitive) -> (b: IntegerBounds)
    ensures
        b == described_bounds(p),
{
    match p {
        IntegerPrimitive::U8 => IntegerBounds {
            format: IntegerFormat::Int32,
            minimum: u8::MIN as i64,
            maximum: u8::MAX as i64,
        },
        IntegerPrimitive::I8 => IntegerBounds {
            format: IntegerFormat::Int32,
            minimum: i8::MIN as i64,
            maximum: i8::MAX as i64,
        },
        IntegerPrimitive::U16 => IntegerBounds {
            format: IntegerFormat::Int32,
            minimum: u16::MIN as i64,
            maximum: u16::MAX as i64,
        },
        IntegerPrimitive::I16 => IntegerBounds {
            format: IntegerFormat::Int32,
            minimum: i16::MIN as i64,
            maximum: i16::MAX as i64,
        },
        // `u32::MAX` exceeds `i32::MAX`, so only `int64` describes the range.
        IntegerPrimitive::U32 => IntegerBounds {
            format: IntegerFormat::Int64,
            minimum: u32::MIN as i64,
            maximum: u32::MAX as i64,
        },
        IntegerPrimitive::I32 => IntegerBounds {
            format: IntegerFormat::Int32,
            minimum: i32::MIN as i64,
            maximum: i32::MAX as i64,
        },
        // The upper bound of the unsigned 64-bit types cannot be written as an
        // `i64`; it is clamped to `i64::MAX`.
        IntegerPrimitive::U64 | IntegerPrimitive::Usize => IntegerBounds {
            format: IntegerFormat::Int64,
            minimum: 0,
            maximum: i64::MAX,
        },
        IntegerPrimitive::I64 | IntegerPrimitive::Isize => IntegerBounds {
            format: IntegerFormat::Int64,
            minimum: i64::MIN,
            maximum: i64::MAX,
        },
    }
}

} // verus!

verus! {

/// Law: a value lies within the schema's bounds exactly when it is a value of
/// the type that an `i64` bound can express.
pub proof fn integer_bounds_describe_the_range(p: IntegerPrimitive, v: int)
    ensures
        (described_bounds(p).minimum <= v <= described_bounds(p).maximum) <==> (p.min_value() <= v
            <= p.max_value() && i64::MIN <= v <= i64::MAX),
{
}

/// Law: the format is `int32` exactly when every value of the type fits in a
/// 32-bit signed integer, and `int64` otherwise.
pub proof fn integer_format_is_the_narrowest(p: IntegerPrimitive)
    ensures
        (described_bounds(p).format == IntegerFormat::Int32) <==> p.fits_int32(),
        (described_bounds(p).format == IntegerFormat::Int64) <==> !p.fits_int32(),
{
}

/// Law: only the unsigned 64-bit types lose part of their range, and they lose
/// only the values above `i64::MAX`.
pub proof fn integer_bounds_are_exact_below_i64_max(p: IntegerPrimitive)
    ensures
        described_bounds(p).minimum == p.min_value(),
        p.max_value() <= i64::MAX ==> described_bounds(p).maximum == p.max_value(),
        p.max_value() > i64::MAX ==> described_bounds(p).maximum == i64::MAX && (p
            == IntegerPrimitive::U64 || p == IntegerPrimitive::Usize),
{
}

/// The `openapiv3::Schema` of kind `Type::Integer` with the given format and
/// inclusive bounds and no other facet.
pub uninterp spec fn integer_schema_of(
    format: IntegerFormat,
    minimum: i64,
    maximum: i64,
) -> openapiv3::Schema;

/// Builds an `openapiv3::Schema` of kind `Type::Integer` with the given
/// format and inclusive bounds and no other facet. Claimed: the result is
/// what `integer_schema_of` names for these arguments.
#[verifier::external_body]
fn integer_schema(format: IntegerFormat, minimum: i64, maximum: i64) -> (schema: openapiv3::Schema)
    ensures
        schema == integer_schema_of(format, minimum, maximum),
{
    let format = match format {
        IntegerFormat::Int32 => openapiv3::IntegerFormat::Int32,
        IntegerFormat::Int64 => openapiv3::IntegerFormat::Int64,
    };
    let integer = openapiv3::IntegerType {
        format: openapiv3::VariantOrUnknownOrEmpty::Item(format),
        minimum: Some(minimum),
        maximum: Some(maximum),
        ..openapiv3::IntegerType::default()
    };
    let kind = openapiv3::SchemaKind::Type(openapiv3::Type::Integer(integer));
    openapiv3::Schema { data: openapiv3::SchemaData::default(), kind }
}

/// The integer schema of the primitive `p`: its format and the bounds that
/// `integer_bounds` states.
pub fn primitive_integer_schema(p: IntegerPrimitive) -> (schema: openapiv3::Schema)
    ensures
        schema == integer_schema_of(
            described_bounds(p).format,
            described_bounds(p).minimum,
            described_bounds(p).maximum,
        ),
{
    let b = integer_bounds(p);
    integer_schema(b.format, b.minimum, b.maximum)
}

} // verus!
