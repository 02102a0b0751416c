//! Physical safety contracts: which physical in-memory array representation
//! underlies a column of a given marker.
//!
//! The physical representations form a sealed, closed set, so generic code
//! dispatches over them without any unchecked reinterpretation: the
//! backing-representation relation (per marker) and the canonical-backing
//! relation (per column type) are both stated as verified contracts, and
//! their required agreement on every supported marker/column-type pair is
//! proved, not assumed.

use vstd::prelude::*;

use crate::chunked::ArrayChunked;
use crate::chunked::BinaryChunked;
use crate::chunked::BooleanChunked;
use crate::chunked::ChunkedArray;
use crate::chunked::ListChunked;
use crate::chunked::Utf8Chunked;
use crate::datatypes::BinaryType;
use crate::datatypes::Float32Type;
use crate::datatypes::Float64Type;
use crate::datatypes::Int128Type;
use crate::datatypes::Int16Type;
use crate::datatypes::Int32Type;
use crate::datatypes::Int64Type;
use crate::datatypes::Int8Type;
use crate::datatypes::UInt16Type;
use crate::datatypes::UInt32Type;
use crate::datatypes::UInt64Type;
use crate::datatypes::UInt8Type;
use crate::datatypes::BooleanType;
use crate::datatypes::CategoricalType;
use crate::datatypes::FixedSizeListType;
use crate::datatypes::ListType;
use crate::datatypes::PolarsDataType;
use crate::datatypes::Utf8Type;
use crate::numeric::PolarsNumericType;

verus! {

/// The element width of a primitive (fixed-width) physical array.
#[derive(Clone, Copy, PartialEq, Eq, Structural, Debug)]
pub enum PrimitiveKind {
    Int8,
    Int16,
    Int32,
    Int64,
    Int128,
    UInt8,
    UInt16,
    UInt32,
    UInt64,
    Float32,
    Float64,
}

/// One of the closed set of physical in-memory array representations that
/// can store a column's values.
#[derive(Clone, Copy, PartialEq, Eq, Structural, Debug)]
pub enum ArrayRepr {
    /// A contiguous buffer of fixed-width values with a validity bitmap.
    Primitive(PrimitiveKind),
    /// A boolean bitmap with a validity bitmap.
    Boolean,
    /// Variable-length UTF-8 text with 64-bit offsets.
    LargeUtf8,
    /// Variable-length binary data with 64-bit offsets.
    LargeBinary,
    /// Variable-length lists with 64-bit offsets.
    LargeList,
    /// Lists of one fixed length.
    FixedSizeList,
    /// Type-erased user objects.
    Object,
}

/// The backing-representation relation: declares, for a marker, the one
/// physical array representation that stores every column instance tagged
/// with it. Generic code may dispatch to that representation on this basis
/// alone; the declaration is a verified contract, so no unchecked
/// reinterpretation is involved.
pub trait StaticallyMatchesPolarsType: PolarsDataType {
    /// The physical representation assumed for columns of this marker.
    spec fn spec_backing_repr() -> ArrayRepr;

    /// The physical representation assumed for columns of this marker.
    fn backing_repr() -> (r: ArrayRepr)
        ensures
            r == Self::spec_backing_repr(),
    ;
}

/// The canonical-backing relation: names, for a concrete column type, the
/// single physical representation it is built from, so that generic code
/// can name "the" representation without re-deriving it from the marker.
pub trait HasUnderlyingArray {
    /// The physical representation this column type is built from.
    spec fn spec_underlying_repr() -> ArrayRepr;

    /// The physical representation this column type is built from.
    fn underlying_repr() -> (r: ArrayRepr)
        ensures
            r == Self::spec_underlying_repr(),
    ;
}

impl StaticallyMatchesPolarsType for UInt8Type {
    open spec fn spec_backing_repr() -> ArrayRepr {
        ArrayRepr::Primitive(PrimitiveKind::UInt8)
    }

    fn backing_repr() -> (r: ArrayRepr) {
        ArrayRepr::Primitive(PrimitiveKind::UInt8)
    }
}

impl StaticallyMatchesPolarsType for UInt16Type {
    open spec fn spec_backing_repr() -> ArrayRepr {
        ArrayRepr::Primitive(PrimitiveKind::UInt16)
    }

    fn backing_repr() -> (r: ArrayRepr) {
        ArrayRepr::Primitive(PrimitiveKind::UInt16)
    }
}

impl StaticallyMatchesPolarsType for UInt32Type {
    open spec fn spec_backing_repr() -> ArrayRepr {
        ArrayRepr::Primitive(PrimitiveKind::UInt32)
    }

    fn backing_repr() -> (r: ArrayRepr) {
        ArrayRepr::Primitive(PrimitiveKind::UInt32)
    }
}

impl StaticallyMatchesPolarsType for UInt64Type {
    open spec fn spec_backing_repr() -> ArrayRepr {
        ArrayRepr::Primitive(PrimitiveKind::UInt64)
    }

    fn backing_repr() -> (r: ArrayRepr) {
        ArrayRepr::Primitive(PrimitiveKind::UInt64)
    }
}

impl StaticallyMatchesPolarsType for Int8Type {
    open spec fn spec_backing_repr() -> ArrayRepr {
        ArrayRepr::Primitive(PrimitiveKind::Int8)
    }

    fn backing_repr() -> (r: ArrayRepr) {
        ArrayRepr::Primitive(PrimitiveKind::Int8)
    }
}

impl StaticallyMatchesPolarsType for Int16Type {
    open spec fn spec_backing_repr() -> ArrayRepr {
        ArrayRepr::Primitive(PrimitiveKind::Int16)
    }

    fn backing_repr() -> (r: ArrayRepr) {
        ArrayRepr::Primitive(PrimitiveKind::Int16)
    }
}

impl StaticallyMatchesPolarsType for Int32Type {
    open spec fn spec_backing_repr() -> ArrayRepr {
        ArrayRepr::Primitive(PrimitiveKind::Int32)
    }

    fn backing_repr() -> (r: ArrayRepr) {
        ArrayRepr::Primitive(PrimitiveKind::Int32)
    }
}

impl StaticallyMatchesPolarsType for Int64Type {
    open spec fn spec_backing_repr() -> ArrayRepr {
        ArrayRepr::Primitive(PrimitiveKind::Int64)
    }

    fn backing_repr() -> (r: ArrayRepr) {
        ArrayRepr::Primitive(PrimitiveKind::Int64)
    }
}

impl StaticallyMatchesPolarsType for Int128Type {
    open spec fn spec_backing_repr() -> ArrayRepr {
        ArrayRepr::Primitive(PrimitiveKind::Int128)
    }

    fn backing_repr() -> (r: ArrayRepr) {
        ArrayRepr::Primitive(PrimitiveKind::Int128)
    }
}

impl StaticallyMatchesPolarsType for Float32Type {
    open spec fn spec_backing_repr() -> ArrayRepr {
        ArrayRepr::Primitive(PrimitiveKind::Float32)
    }

    fn backing_repr() -> (r: ArrayRepr) {
        ArrayRepr::Primitive(PrimitiveKind::Float32)
    }
}

impl StaticallyMatchesPolarsType for Float64Type {
    open spec fn spec_backing_repr() -> ArrayRepr {
        ArrayRepr::Primitive(PrimitiveKind::Float64)
    }

    fn backing_repr() -> (r: ArrayRepr) {
        ArrayRepr::Primitive(PrimitiveKind::Float64)
    }
}

impl StaticallyMatchesPolarsType for CategoricalType {
    open spec fn spec_backing_repr() -> ArrayRepr {
        ArrayRepr::Primitive(PrimitiveKind::UInt32)
    }

    fn backing_repr() -> (r: ArrayRepr) {
        ArrayRepr::Primitive(PrimitiveKind::UInt32)
    }
}

impl StaticallyMatchesPolarsType for Utf8Type {
    open spec fn spec_backing_repr() -> ArrayRepr {
        ArrayRepr::LargeUtf8
    }

    fn backing_repr() -> (r: ArrayRepr) {
        ArrayRepr::LargeUtf8
    }
}

impl StaticallyMatchesPolarsType for BinaryType {
    open spec fn spec_backing_repr() -> ArrayRepr {
        ArrayRepr::LargeBinary
    }

    fn backing_repr() -> (r: ArrayRepr) {
        ArrayRepr::LargeBinary
    }
}

impl StaticallyMatchesPolarsType for BooleanType {
    open spec fn spec_backing_repr() -> ArrayRepr {
        ArrayRepr::Boolean
    }

    fn backing_repr() -> (r: ArrayRepr) {
        ArrayRepr::Boolean
    }
}

impl StaticallyMatchesPolarsType for ListType {
    open spec fn spec_backing_repr() -> ArrayRepr {
        ArrayRepr::LargeList
    }

    fn backing_repr() -> (r: ArrayRepr) {
        ArrayRepr::LargeList
    }
}

impl StaticallyMatchesPolarsType for FixedSizeListType {
    open spec fn spec_backing_repr() -> ArrayRepr {
        ArrayRepr::FixedSizeList
    }

    fn backing_repr() -> (r: ArrayRepr) {
        ArrayRepr::FixedSizeList
    }
}

impl<T: PolarsNumericType> HasUnderlyingArray for ChunkedArray<T> {
    open spec fn spec_underlying_repr() -> ArrayRepr {
        ArrayRepr::Primitive(T::spec_prim_kind())
    }

    fn underlying_repr() -> (r: ArrayRepr) {
        ArrayRepr::Primitive(T::prim_kind())
    }
}

impl HasUnderlyingArray for BooleanChunked {
    open spec fn spec_underlying_repr() -> ArrayRepr {
        ArrayRepr::Boolean
    }

    fn underlying_repr() -> (r: ArrayRepr) {
        ArrayRepr::Boolean
    }
}

impl HasUnderlyingArray for Utf8Chunked {
    open spec fn spec_underlying_repr() -> ArrayRepr {
        ArrayRepr::LargeUtf8
    }

    fn underlying_repr() -> (r: ArrayRepr) {
        ArrayRepr::LargeUtf8
    }
}

impl HasUnderlyingArray for BinaryChunked {
    open spec fn spec_underlying_repr() -> ArrayRepr {
        ArrayRepr::LargeBinary
    }

    fn underlying_repr() -> (r: ArrayRepr) {
        ArrayRepr::LargeBinary
    }
}

impl HasUnderlyingArray for ListChunked {
    open spec fn spec_underlying_repr() -> ArrayRepr {
        ArrayRepr::LargeList
    }

    fn underlying_repr() -> (r: ArrayRepr) {
        ArrayRepr::LargeList
    }
}

impl HasUnderlyingArray for ArrayChunked {
    open spec fn spec_underlying_repr() -> ArrayRepr {
        ArrayRepr::FixedSizeList
    }

    fn underlying_repr() -> (r: ArrayRepr) {
        ArrayRepr::FixedSizeList
    }
}

/// For the `UInt8Type` marker and its column type, the backing-representation
/// relation and the canonical-backing relation name the same physical
/// representation.
pub proof fn lemma_backing_consistent_uint8()
    ensures
        UInt8Type::spec_backing_repr() == <ChunkedArray<UInt8Type> as HasUnderlyingArray>::spec_underlying_repr(),
{
}

/// For the `UInt16Type` marker and its column type, the backing-representation
/// relation and the canonical-backing relation name the same physical
/// representation.
pub proof fn lemma_backing_consistent_uint16()
    ensures
        UInt16Type::spec_backing_repr() == <ChunkedArray<UInt16Type> as HasUnderlyingArray>::spec_underlying_repr(),
{
}

/// For the `UInt32Type` marker and its column type, the backing-representation
/// relation and the canonical-backing relation name the same physical
/// representation.
pub proof fn lemma_backing_consistent_uint32()
    ensures
        UInt32Type::spec_backing_repr() == <ChunkedArray<UInt32Type> as HasUnderlyingArray>::spec_underlying_repr(),
{
}

/// For the `UInt64Type` marker and its column type, the backing-representation
/// relation and the canonical-backing relation name the same physical
/// representation.
pub proof fn lemma_backing_consistent_uint64()
    ensures
        UInt64Type::spec_backing_repr() == <ChunkedArray<UInt64Type> as HasUnderlyingArray>::spec_underlying_repr(),
{
}

/// For the `Int8Type` marker and its column type, the backing-representation
/// relation and the canonical-backing relation name the same physical
/// representation.
pub proof fn lemma_backing_consistent_int8()
    ensures
        Int8Type::spec_backing_repr() == <ChunkedArray<Int8Type> as HasUnderlyingArray>::spec_underlying_repr(),
{
}

/// For the `Int16Type` marker and its column type, the backing-representation
/// relation and the canonical-backing relation name the same physical
/// representation.
pub proof fn lemma_backing_consistent_int16()
    ensures
        Int16Type::spec_backing_repr() == <ChunkedArray<Int16Type> as HasUnderlyingArray>::spec_underlying_repr(),
{
}

/// For the `Int32Type` marker and its column type, the backing-representation
/// relation and the canonical-backing relation name the same physical
/// representation.
pub proof fn lemma_backing_consistent_int32()
    ensures
        Int32Type::spec_backing_repr() == <ChunkedArray<Int32Type> as HasUnderlyingArray>::spec_underlying_repr(),
{
}

/// For the `Int64Type` marker and its column type, the backing-representation
/// relation and the canonical-backing relation name the same physical
/// representation.
pub proof fn lemma_backing_consistent_int64()
    ensures
        Int64Type::spec_backing_repr() == <ChunkedArray<Int64Type> as HasUnderlyingArray>::spec_underlying_repr(),
{
}

/// For the `Int128Type` marker and its column type, the backing-representation
/// relation and the canonical-backing relation name the same physical
/// representation.
pub proof fn lemma_backing_consistent_int128()
    ensures
        Int128Type::spec_backing_repr() == <ChunkedArray<Int128Type> as HasUnderlyingArray>::spec_underlying_repr(),
{
}

/// For the boolean column type, both relations name the boolean bitmap
/// representation.
pub proof fn lemma_backing_consistent_boolean()
    ensures
        BooleanType::spec_backing_repr()
            == <BooleanChunked as HasUnderlyingArray>::spec_underlying_repr(),
{
}

/// For the text column type, both relations name the large UTF-8
/// representation.
pub proof fn lemma_backing_consistent_utf8()
    ensures
        Utf8Type::spec_backing_repr() == <Utf8Chunked as HasUnderlyingArray>::spec_underlying_repr(),
{
}

/// For the binary column type, both relations name the large binary
/// representation.
pub proof fn lemma_backing_consistent_binary()
    ensures
        BinaryType::spec_backing_repr()
            == <BinaryChunked as HasUnderlyingArray>::spec_underlying_repr(),
{
}

/// For the list column type, both relations name the large list
/// representation.
pub proof fn lemma_backing_consistent_list()
    ensures
        ListType::spec_backing_repr() == <ListChunked as HasUnderlyingArray>::spec_underlying_repr(),
{
}

/// For the fixed-size list column type, both relations name the fixed-size
/// list representation.
pub proof fn lemma_backing_consistent_array()
    ensures
        FixedSizeListType::spec_backing_repr()
            == <ArrayChunked as HasUnderlyingArray>::spec_underlying_repr(),
{
}

} // verus!
