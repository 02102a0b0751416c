use column_core::datatypes::BinaryType;
use column_core::datatypes::BooleanType;
use column_core::datatypes::CategoricalType;
use column_core::datatypes::DateType;
use column_core::datatypes::DatetimeType;
use column_core::datatypes::DecimalType;
use column_core::datatypes::DurationType;
use column_core::datatypes::FixedSizeListType;
use column_core::datatypes::Float32Type;
use column_core::datatypes::Float64Type;
use column_core::datatypes::Int128Type;
use column_core::datatypes::Int16Type;
use column_core::datatypes::Int32Type;
use column_core::datatypes::Int64Type;
use column_core::datatypes::Int8Type;
use column_core::datatypes::ListType;
use column_core::datatypes::PolarsDataType;
use column_core::datatypes::PolarsSingleType;
use column_core::datatypes::TimeType;
use column_core::datatypes::UInt16Type;
use column_core::datatypes::UInt32Type;
use column_core::datatypes::UInt64Type;
use column_core::datatypes::UInt8Type;
use column_core::datatypes::Utf8Type;
use column_core::dtype::DataType;
use column_core::dtype::Field;
use column_core::dtype::TimeUnit;

#[test]
fn scalar_markers_recover_exact_dtype() {
    assert_eq!(UInt8Type::get_dtype(), DataType::UInt8);
    assert_eq!(UInt16Type::get_dtype(), DataType::UInt16);
    assert_eq!(UInt32Type::get_dtype(), DataType::UInt32);
    assert_eq!(UInt64Type::get_dtype(), DataType::UInt64);
    assert_eq!(Int8Type::get_dtype(), DataType::Int8);
    assert_eq!(Int16Type::get_dtype(), DataType::Int16);
    assert_eq!(Int32Type::get_dtype(), DataType::Int32);
    assert_eq!(Int64Type::get_dtype(), DataType::Int64);
    assert_eq!(Float32Type::get_dtype(), DataType::Float32);
    assert_eq!(Float64Type::get_dtype(), DataType::Float64);
    assert_eq!(DateType::get_dtype(), DataType::Date);
    assert_eq!(TimeType::get_dtype(), DataType::Time);
    assert_eq!(BooleanType::get_dtype(), DataType::Boolean);
    assert_eq!(Utf8Type::get_dtype(), DataType::Utf8);
    assert_eq!(BinaryType::get_dtype(), DataType::Binary);
}

#[test]
fn scalar_marker_recovery_is_idempotent() {
    assert_eq!(Int32Type::get_dtype(), Int32Type::get_dtype());
    assert_eq!(UInt64Type::get_dtype(), UInt64Type::get_dtype());
    assert_eq!(Utf8Type::get_dtype(), Utf8Type::get_dtype());
    assert_eq!(BooleanType::get_dtype(), BooleanType::get_dtype());
    assert_eq!(DateType::get_dtype(), DateType::get_dtype());
}

#[test]
fn parameterized_markers_recover_placeholder() {
    assert_eq!(DatetimeType::get_dtype(), DataType::Unknown);
    assert_eq!(DurationType::get_dtype(), DataType::Unknown);
    assert_eq!(CategoricalType::get_dtype(), DataType::Unknown);
    assert_eq!(DecimalType::get_dtype(), DataType::Unknown);
}

#[test]
fn nested_markers_recover_placeholder_element() {
    assert_eq!(ListType::get_dtype(), DataType::List(Box::new(DataType::Null)));
    assert_eq!(
        FixedSizeListType::get_dtype(),
        DataType::Array(Box::new(DataType::Null), 0)
    );
}

#[test]
fn int128_marker_recovers_decimal_with_zero_scale() {
    assert_eq!(Int128Type::get_dtype(), DataType::Decimal(None, Some(0)));
}

#[test]
fn list_of_null_differs_from_list_of_int32() {
    let a = DataType::List(Box::new(DataType::Null));
    let b = DataType::List(Box::new(DataType::Int32));
    assert!(!a.eq_dtype(&b));
    assert_ne!(a, b);
}

#[test]
fn list_of_int32_equals_list_of_int32() {
    let a = DataType::List(Box::new(DataType::Int32));
    let b = DataType::List(Box::new(DataType::Int32));
    assert!(a.eq_dtype(&b));
    assert_eq!(a, b);
}

#[test]
fn array_length_is_part_of_the_type() {
    let a = DataType::Array(Box::new(DataType::Int32), 3);
    let b = DataType::Array(Box::new(DataType::Int32), 4);
    assert!(!a.eq_dtype(&b));
    assert_ne!(a, b);
    let c = DataType::Array(Box::new(DataType::Int32), 3);
    assert!(a.eq_dtype(&c));
}

#[test]
fn datetime_equality_is_exact_on_unit_and_zone() {
    let a = DataType::Datetime(TimeUnit::Milliseconds, Some(String::from("UTC")));
    let b = DataType::Datetime(TimeUnit::Milliseconds, Some(String::from("UTC")));
    let c = DataType::Datetime(TimeUnit::Nanoseconds, Some(String::from("UTC")));
    let d = DataType::Datetime(TimeUnit::Milliseconds, None);
    assert!(a.eq_dtype(&b));
    assert!(!a.eq_dtype(&c));
    assert!(!a.eq_dtype(&d));
}

#[test]
fn inner_dtype_exposes_the_element_type() {
    let l = DataType::List(Box::new(DataType::Utf8));
    assert_eq!(l.inner_dtype(), Some(&DataType::Utf8));
    let a = DataType::Array(Box::new(DataType::Int8), 7);
    assert_eq!(a.inner_dtype(), Some(&DataType::Int8));
    assert_eq!(DataType::Int32.inner_dtype(), None);
}

#[test]
fn numeric_classification() {
    assert!(DataType::Int32.is_integer());
    assert!(DataType::UInt64.is_integer());
    assert!(!DataType::Float64.is_integer());
    assert!(DataType::Float32.is_float());
    assert!(!DataType::Int8.is_float());
    assert!(DataType::Int16.is_numeric());
    assert!(DataType::Float64.is_numeric());
    assert!(!DataType::Utf8.is_numeric());
    assert!(DataType::List(Box::new(DataType::Null)).is_nested());
    assert!(!DataType::Boolean.is_nested());
}

#[test]
fn decimal_parameters_are_exposed() {
    let d = DataType::Decimal(Some(10), Some(2));
    assert_eq!(d.decimal_precision(), Some(10));
    assert_eq!(d.decimal_scale(), Some(2));
    assert_eq!(DataType::Int32.decimal_precision(), None);
    assert_eq!(DataType::Int32.decimal_scale(), None);
}

#[test]
fn time_unit_is_exposed() {
    let d = DataType::Duration(TimeUnit::Microseconds);
    assert_eq!(d.time_unit(), Some(TimeUnit::Microseconds));
    assert_eq!(DataType::Utf8.time_unit(), None);
}

#[test]
fn object_name_is_exposed() {
    let o = DataType::Object("widget");
    assert_eq!(o.object_name(), Some("widget"));
    assert_eq!(DataType::Unknown.object_name(), None);
}

#[test]
fn field_pairs_name_and_dtype() {
    let f = Field::new(String::from("age"), DataType::UInt32);
    assert_eq!(f.name(), "age");
    assert_eq!(f.dtype(), &DataType::UInt32);
}

fn is_single<T: PolarsSingleType>() {}

#[test]
fn non_nested_markers_are_single_types() {
    is_single::<UInt8Type>();
    is_single::<Int64Type>();
    is_single::<Float64Type>();
    is_single::<BooleanType>();
    is_single::<Utf8Type>();
    is_single::<BinaryType>();
    is_single::<DateType>();
    is_single::<Int128Type>();
}
