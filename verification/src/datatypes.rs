//! Type markers: one stateless, zero-size tag per logical type, usable as a
//! generic-dispatch key, each able to recover its canonical logical-type
//! value.
//!
//! For self-describing scalar markers the recovery is exact. For
//! parameterized markers (`DatetimeType`, `DurationType`, `CategoricalType`,
//! `DecimalType`) the marker alone cannot encode instance parameters, so the
//! recovered value is a generic placeholder; the true parameters travel as
//! runtime metadata on the concrete column and must be propagated out of
//! band whenever they matter.

use vstd::prelude::*;

use crate::dtype::DataType;
use crate::dtype::dtype_equal;

verus! {

/// A stateless tag identifying one logical column type for generic dispatch.
///
/// `spec_dtype` is the canonical logical-type value the marker stands for;
/// `get_dtype` recovers it. The mapping marker -> logical type is total but
/// not injective: parameterized markers recover a generic placeholder.
pub trait PolarsDataType: Sized {
    /// The canonical logical-type value of this marker.
    spec fn spec_dtype() -> DataType;

    /// Recover the canonical logical-type value of this marker.
    fn get_dtype() -> (d: DataType)
        ensures
            dtype_equal(d, Self::spec_dtype()),
    ;
}

/// Any type whose columns are not nested.
pub trait PolarsSingleType: PolarsDataType {
}

/// Marker for an unsigned 8-bit integer column.
#[derive(Clone, Copy)]
pub struct UInt8Type {}

impl PolarsDataType for UInt8Type {
    open spec fn spec_dtype() -> DataType {
        DataType::UInt8
    }

    fn get_dtype() -> (d: DataType)
        ensures
            d == Self::spec_dtype(),
    {
        DataType::UInt8
    }
}

impl PolarsSingleType for UInt8Type {
}

/// Marker for an unsigned 16-bit integer column.
#[derive(Clone, Copy)]
pub struct UInt16Type {}

impl PolarsDataType for UInt16Type {
    open spec fn spec_dtype() -> DataType {
        DataType::UInt16
    }

    fn get_dtype() -> (d: DataType)
        ensures
            d == Self::spec_dtype(),
    {
        DataType::UInt16
    }
}

impl PolarsSingleType for UInt16Type {
}

/// Marker for an unsigned 32-bit integer column.
#[derive(Clone, Copy)]
pub struct UInt32Type {}

impl PolarsDataType for UInt32Type {
    open spec fn spec_dtype() -> DataType {
        DataType::UInt32
    }

    fn get_dtype() -> (d: DataType)
        ensures
            d == Self::spec_dtype(),
    {
        DataType::UInt32
    }
}

impl PolarsSingleType for UInt32Type {
}

/// Marker for an unsigned 64-bit integer column.
#[derive(Clone, Copy)]
pub struct UInt64Type {}

impl PolarsDataType for UInt64Type {
    open spec fn spec_dtype() -> DataType {
        DataType::UInt64
    }

    fn get_dtype() -> (d: DataType)
        ensures
            d == Self::spec_dtype(),
    {
        DataType::UInt64
    }
}

impl PolarsSingleType for UInt64Type {
}

/// Marker for a signed 8-bit integer column.
#[derive(Clone, Copy)]
pub struct Int8Type {}

impl PolarsDataType for Int8Type {
    open spec fn spec_dtype() -> DataType {
        DataType::Int8
    }

    fn get_dtype() -> (d: DataType)
        ensures
            d == Self::spec_dtype(),
    {
        DataType::Int8
    }
}

impl PolarsSingleType for Int8Type {
}

/// Marker for a signed 16-bit integer column.
#[derive(Clone, Copy)]
pub struct Int16Type {}

impl PolarsDataType for Int16Type {
    open spec fn spec_dtype() -> DataType {
        DataType::Int16
    }

    fn get_dtype() -> (d: DataType)
        ensures
            d == Self::spec_dtype(),
    {
        DataType::Int16
    }
}

impl PolarsSingleType for Int16Type {
}

/// Marker for a signed 32-bit integer column.
#[derive(Clone, Copy)]
pub struct Int32Type {}

impl PolarsDataType for Int32Type {
    open spec fn spec_dtype() -> DataType {
        DataType::Int32
    }

    fn get_dtype() -> (d: DataType)
        ensures
            d == Self::spec_dtype(),
    {
        DataType::Int32
    }
}

impl PolarsSingleType for Int32Type {
}

/// Marker for a signed 64-bit integer column.
#[derive(Clone, Copy)]
pub struct Int64Type {}

impl PolarsDataType for Int64Type {
    open spec fn spec_dtype() -> DataType {
        DataType::Int64
    }

    fn get_dtype() -> (d: DataType)
        ensures
            d == Self::spec_dtype(),
    {
        DataType::Int64
    }
}

impl PolarsSingleType for Int64Type {
}

/// Marker for a 32-bit floating-point column.
#[derive(Clone, Copy)]
pub struct Float32Type {}

impl PolarsDataType for Float32Type {
    open spec fn spec_dtype() -> DataType {
        DataType::Float32
    }

    fn get_dtype() -> (d: DataType)
        ensures
            d == Self::spec_dtype(),
    {
        DataType::Float32
    }
}

impl PolarsSingleType for Float32Type {
}

/// Marker for a 64-bit floating-point column.
#[derive(Clone, Copy)]
pub struct Float64Type {}

impl PolarsDataType for Float64Type {
    open spec fn spec_dtype() -> DataType {
        DataType::Float64
    }

    fn get_dtype() -> (d: DataType)
        ensures
            d == Self::spec_dtype(),
    {
        DataType::Float64
    }
}

impl PolarsSingleType for Float64Type {
}

/// Marker for a date column.
#[derive(Clone, Copy)]
pub struct DateType {}

impl PolarsDataType for DateType {
    open spec fn spec_dtype() -> DataType {
        DataType::Date
    }

    fn get_dtype() -> (d: DataType)
        ensures
            d == Self::spec_dtype(),
    {
        DataType::Date
    }
}

impl PolarsSingleType for DateType {
}

/// Marker for a time-of-day column.
#[derive(Clone, Copy)]
pub struct TimeType {}

impl PolarsDataType for TimeType {
    open spec fn spec_dtype() -> DataType {
        DataType::Time
    }

    fn get_dtype() -> (d: DataType)
        ensures
            d == Self::spec_dtype(),
    {
        DataType::Time
    }
}

impl PolarsSingleType for TimeType {
}

/// Marker for a boolean column.
#[derive(Clone, Copy)]
pub struct BooleanType {}

impl PolarsDataType for BooleanType {
    open spec fn spec_dtype() -> DataType {
        DataType::Boolean
    }

    fn get_dtype() -> (d: DataType)
        ensures
            d == Self::spec_dtype(),
    {
        DataType::Boolean
    }
}

impl PolarsSingleType for BooleanType {
}

/// Marker for a UTF-8 text column.
#[derive(Clone, Copy)]
pub struct Utf8Type {}

impl PolarsDataType for Utf8Type {
    open spec fn spec_dtype() -> DataType {
        DataType::Utf8
    }

    fn get_dtype() -> (d: DataType)
        ensures
            d == Self::spec_dtype(),
    {
        DataType::Utf8
    }
}

impl PolarsSingleType for Utf8Type {
}

/// Marker for a binary column.
#[derive(Clone, Copy)]
pub struct BinaryType {}

impl PolarsDataType for BinaryType {
    open spec fn spec_dtype() -> DataType {
        DataType::Binary
    }

    fn get_dtype() -> (d: DataType)
        ensures
            d == Self::spec_dtype(),
    {
        DataType::Binary
    }
}

impl PolarsSingleType for BinaryType {
}

/// Marker for a timestamp column. Parameterized: the marker cannot encode the
/// time unit and time zone, so its recovered logical type is the `Unknown` placeholder;
/// callers needing the exact parameters must receive them out of band.
#[derive(Clone, Copy)]
pub struct DatetimeType {}

impl PolarsDataType for DatetimeType {
    open spec fn spec_dtype() -> DataType {
        DataType::Unknown
    }

    fn get_dtype() -> (d: DataType)
        ensures
            d == Self::spec_dtype(),
    {
        DataType::Unknown
    }
}

impl PolarsSingleType for DatetimeType {
}

/// Marker for a duration column. Parameterized: the marker cannot encode the
/// time unit, so its recovered logical type is the `Unknown` placeholder;
/// callers needing the exact parameters must receive them out of band.
#[derive(Clone, Copy)]
pub struct DurationType {}

impl PolarsDataType for DurationType {
    open spec fn spec_dtype() -> DataType {
        DataType::Unknown
    }

    fn get_dtype() -> (d: DataType)
        ensures
            d == Self::spec_dtype(),
    {
        DataType::Unknown
    }
}

impl PolarsSingleType for DurationType {
}

/// Marker for a categorical column. Parameterized: the marker cannot encode the
/// category dictionary, so its recovered logical type is the `Unknown` placeholder;
/// callers needing the exact parameters must receive them out of band.
#[derive(Clone, Copy)]
pub struct CategoricalType {}

impl PolarsDataType for CategoricalType {
    open spec fn spec_dtype() -> DataType {
        DataType::Unknown
    }

    fn get_dtype() -> (d: DataType)
        ensures
            d == Self::spec_dtype(),
    {
        DataType::Unknown
    }
}

impl PolarsSingleType for CategoricalType {
}

/// Marker for a decimal column. Parameterized: the marker cannot encode the
/// precision and scale, so its recovered logical type is the `Unknown` placeholder;
/// callers needing the exact parameters must receive them out of band.
#[derive(Clone, Copy)]
pub struct DecimalType {}

impl PolarsDataType for DecimalType {
    open spec fn spec_dtype() -> DataType {
        DataType::Unknown
    }

    fn get_dtype() -> (d: DataType)
        ensures
            d == Self::spec_dtype(),
    {
        DataType::Unknown
    }
}

impl PolarsSingleType for DecimalType {
}

/// Marker for a variable-length list column. Without a concrete column the
/// element type cannot be known, so the recovered logical type carries the
/// `Null` placeholder element.
pub struct ListType {}

impl PolarsDataType for ListType {
    open spec fn spec_dtype() -> DataType {
        DataType::List(Box::new(DataType::Null))
    }

    fn get_dtype() -> (d: DataType)
        ensures
            d == Self::spec_dtype(),
    {
        proof {
            assert(dtype_equal(DataType::Null, DataType::Null));
        }
        DataType::List(Box::new(DataType::Null))
    }
}

/// Marker for a fixed-size list column. Without a concrete column neither
/// the element type nor the length can be known, so the recovered logical
/// type carries the `Null` placeholder element and length zero.
pub struct FixedSizeListType {}

impl PolarsDataType for FixedSizeListType {
    open spec fn spec_dtype() -> DataType {
        DataType::Array(Box::new(DataType::Null), 0)
    }

    fn get_dtype() -> (d: DataType)
        ensures
            d == Self::spec_dtype(),
    {
        proof {
            assert(dtype_equal(DataType::Null, DataType::Null));
        }
        DataType::Array(Box::new(DataType::Null), 0)
    }
}

/// Marker for a 128-bit integer column: the physical storage of decimal
/// columns. Its logical type is a decimal with no declared precision; the
/// scale is zero rather than absent so that element access has a concrete
/// scale to work with.
#[derive(Clone, Copy)]
pub struct Int128Type {}

impl PolarsDataType for Int128Type {
    open spec fn spec_dtype() -> DataType {
        DataType::Decimal(Option::None, Option::Some(0))
    }

    fn get_dtype() -> (d: DataType)
        ensures
            d == Self::spec_dtype(),
    {
        DataType::Decimal(Option::None, Option::Some(0))
    }
}

impl PolarsSingleType for Int128Type {
}

/// An opaque user-defined value that a column can hold, identified by a
/// type name.
pub trait PolarsObject: Sized {
    /// The object type's name, as a spec-level value.
    spec fn spec_object_name() -> &'static str;

    /// The object type's name.
    fn object_type_name() -> (r: &'static str)
        ensures
            r@ == Self::spec_object_name()@,
    ;
}

/// Marker for a column of opaque user objects of type `T`.
pub struct ObjectType<T>(T);

impl<T: PolarsObject> PolarsDataType for ObjectType<T> {
    open spec fn spec_dtype() -> DataType {
        DataType::Object(T::spec_object_name())
    }

    fn get_dtype() -> (d: DataType) {
        DataType::Object(T::object_type_name())
    }
}

/// Every self-describing scalar marker recovers exactly the logical type
/// it stands for; the parameterized markers recover the placeholder.
pub proof fn lemma_marker_recovery_exact()
    ensures
        UInt8Type::spec_dtype() == DataType::UInt8,
        UInt16Type::spec_dtype() == DataType::UInt16,
        UInt32Type::spec_dtype() == DataType::UInt32,
        UInt64Type::spec_dtype() == DataType::UInt64,
        Int8Type::spec_dtype() == DataType::Int8,
        Int16Type::spec_dtype() == DataType::Int16,
        Int32Type::spec_dtype() == DataType::Int32,
        Int64Type::spec_dtype() == DataType::Int64,
        Float32Type::spec_dtype() == DataType::Float32,
        Float64Type::spec_dtype() == DataType::Float64,
        DateType::spec_dtype() == DataType::Date,
        TimeType::spec_dtype() == DataType::Time,
        BooleanType::spec_dtype() == DataType::Boolean,
        Utf8Type::spec_dtype() == DataType::Utf8,
        BinaryType::spec_dtype() == DataType::Binary,
        DatetimeType::spec_dtype() == DataType::Unknown,
        DurationType::spec_dtype() == DataType::Unknown,
        CategoricalType::spec_dtype() == DataType::Unknown,
        DecimalType::spec_dtype() == DataType::Unknown,
{
}

} // verus!
