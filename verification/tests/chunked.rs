use column_core::chunked::ArrayChunked;
use column_core::chunked::BinaryChunked;
use column_core::chunked::BooleanChunked;
use column_core::chunked::ChunkedArray;
use column_core::chunked::ListChunked;
use column_core::chunked::Utf8Chunked;
use column_core::datatypes::UInt16Type;
use column_core::dtype::DataType;

#[test]
fn numeric_column_carries_name_dtype_and_values() {
    let c = ChunkedArray::<UInt16Type>::new(String::from("n"), vec![Some(1u16), None, Some(3)]);
    assert_eq!(c.len(), 3);
    assert_eq!(c.name(), "n");
    assert_eq!(c.dtype(), &DataType::UInt16);
    assert_eq!(c.values(), &vec![Some(1u16), None, Some(3)]);
}

#[test]
fn boolean_column_carries_its_dtype() {
    let c = BooleanChunked::new(String::from("b"), vec![Some(true), None]);
    assert_eq!(c.len(), 2);
}

#[test]
fn text_and_binary_columns_count_nulls_in_length() {
    let t = Utf8Chunked::new(String::from("t"), vec![Some(String::from("x")), None]);
    assert_eq!(t.len(), 2);
    let b = BinaryChunked::new(String::from("raw"), vec![None, Some(vec![1u8, 2])]);
    assert_eq!(b.len(), 2);
}

#[test]
fn nested_column_descriptors_nest_the_element_type() {
    let _l = ListChunked::new(String::from("l"), DataType::Int32);
    let _a = ArrayChunked::new(String::from("a"), DataType::Int32, 4);
}
