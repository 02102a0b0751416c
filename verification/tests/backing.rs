use column_core::backing::ArrayRepr;
use column_core::backing::HasUnderlyingArray;
use column_core::backing::PrimitiveKind;
use column_core::backing::StaticallyMatchesPolarsType;
use column_core::chunked::ArrayChunked;
use column_core::chunked::BinaryChunked;
use column_core::chunked::BooleanChunked;
use column_core::chunked::ChunkedArray;
use column_core::chunked::ListChunked;
use column_core::chunked::Utf8Chunked;
use column_core::datatypes::BinaryType;
use column_core::datatypes::BooleanType;
use column_core::datatypes::CategoricalType;
use column_core::datatypes::FixedSizeListType;
use column_core::datatypes::Float32Type;
use column_core::datatypes::Float64Type;
use column_core::datatypes::Int128Type;
use column_core::datatypes::Int16Type;
use column_core::datatypes::Int32Type;
use column_core::datatypes::Int64Type;
use column_core::datatypes::Int8Type;
use column_core::datatypes::ListType;
use column_core::datatypes::UInt16Type;
use column_core::datatypes::UInt32Type;
use column_core::datatypes::UInt64Type;
use column_core::datatypes::UInt8Type;
use column_core::datatypes::Utf8Type;

/// The load-bearing conformance check: for every supported
/// marker/column-type pair, the backing-representation relation and the
/// canonical-backing relation name the same physical representation.
#[test]
fn backing_and_canonical_relations_agree_on_every_pair() {
    assert_eq!(
        <UInt8Type as StaticallyMatchesPolarsType>::backing_repr(),
        <ChunkedArray<UInt8Type> as HasUnderlyingArray>::underlying_repr()
    );
    assert_eq!(
        <UInt16Type as StaticallyMatchesPolarsType>::backing_repr(),
        <ChunkedArray<UInt16Type> as HasUnderlyingArray>::underlying_repr()
    );
    assert_eq!(
        <UInt32Type as StaticallyMatchesPolarsType>::backing_repr(),
        <ChunkedArray<UInt32Type> as HasUnderlyingArray>::underlying_repr()
    );
    assert_eq!(
        <UInt64Type as StaticallyMatchesPolarsType>::backing_repr(),
        <ChunkedArray<UInt64Type> as HasUnderlyingArray>::underlying_repr()
    );
    assert_eq!(
        <Int8Type as StaticallyMatchesPolarsType>::backing_repr(),
        <ChunkedArray<Int8Type> as HasUnderlyingArray>::underlying_repr()
    );
    assert_eq!(
        <Int16Type as StaticallyMatchesPolarsType>::backing_repr(),
        <ChunkedArray<Int16Type> as HasUnderlyingArray>::underlying_repr()
    );
    assert_eq!(
        <Int32Type as StaticallyMatchesPolarsType>::backing_repr(),
        <ChunkedArray<Int32Type> as HasUnderlyingArray>::underlying_repr()
    );
    assert_eq!(
        <Int64Type as StaticallyMatchesPolarsType>::backing_repr(),
        <ChunkedArray<Int64Type> as HasUnderlyingArray>::underlying_repr()
    );
    assert_eq!(
        <Int128Type as StaticallyMatchesPolarsType>::backing_repr(),
        <ChunkedArray<Int128Type> as HasUnderlyingArray>::underlying_repr()
    );
    assert_eq!(
        <BooleanType as StaticallyMatchesPolarsType>::backing_repr(),
        <BooleanChunked as HasUnderlyingArray>::underlying_repr()
    );
    assert_eq!(
        <Utf8Type as StaticallyMatchesPolarsType>::backing_repr(),
        <Utf8Chunked as HasUnderlyingArray>::underlying_repr()
    );
    assert_eq!(
        <BinaryType as StaticallyMatchesPolarsType>::backing_repr(),
        <BinaryChunked as HasUnderlyingArray>::underlying_repr()
    );
    assert_eq!(
        <ListType as StaticallyMatchesPolarsType>::backing_repr(),
        <ListChunked as HasUnderlyingArray>::underlying_repr()
    );
    assert_eq!(
        <FixedSizeListType as StaticallyMatchesPolarsType>::backing_repr(),
        <ArrayChunked as HasUnderlyingArray>::underlying_repr()
    );
}

#[test]
fn backing_reprs_name_the_expected_representations() {
    assert_eq!(
        UInt8Type::backing_repr(),
        ArrayRepr::Primitive(PrimitiveKind::UInt8)
    );
    assert_eq!(
        Int64Type::backing_repr(),
        ArrayRepr::Primitive(PrimitiveKind::Int64)
    );
    assert_eq!(
        Float32Type::backing_repr(),
        ArrayRepr::Primitive(PrimitiveKind::Float32)
    );
    assert_eq!(
        Float64Type::backing_repr(),
        ArrayRepr::Primitive(PrimitiveKind::Float64)
    );
    assert_eq!(
        CategoricalType::backing_repr(),
        ArrayRepr::Primitive(PrimitiveKind::UInt32)
    );
    assert_eq!(Utf8Type::backing_repr(), ArrayRepr::LargeUtf8);
    assert_eq!(BinaryType::backing_repr(), ArrayRepr::LargeBinary);
    assert_eq!(BooleanType::backing_repr(), ArrayRepr::Boolean);
    assert_eq!(ListType::backing_repr(), ArrayRepr::LargeList);
    assert_eq!(FixedSizeListType::backing_repr(), ArrayRepr::FixedSizeList);
}
