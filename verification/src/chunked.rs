//! Column containers: a typed container per marker, pairing a named field
//! with the column's values.
//!
//! Numeric columns hold their values here as plain optional scalars; a
//! `None` element is a null. The physical chunk storage (buffers, validity
//! bitmaps) belongs to the external array library; this model keeps exactly
//! what the typed substrate reasons about: the field, the logical type and
//! the logical sequence of optional values. Nested columns model only
//! their logical typing.

use vstd::prelude::*;

use crate::dtype::DataType;
use crate::dtype::Field;
use crate::dtype::dtype_equal;
use crate::datatypes::PolarsDataType;
use crate::numeric::PolarsNumericType;

verus! {

/// A column of values tagged by the numeric marker `T`: a named field plus
/// the logical sequence of optional native values.
pub struct ChunkedArray<T: PolarsNumericType> {
    field: Field,
    values: Vec<Option<T::Native>>,
}

impl<T: PolarsNumericType> ChunkedArray<T> {
    /// The column's values, as a spec-level sequence; a `None` element is a
    /// null.
    pub closed spec fn spec_values(self) -> Seq<Option<T::Native>> {
        self.values@
    }

    /// The column's name, as a spec-level value.
    pub closed spec fn spec_name(self) -> Seq<char> {
        self.field.spec_name()
    }

    /// The logical type recorded on the column's field.
    pub closed spec fn spec_field_dtype(self) -> DataType {
        self.field.spec_dtype()
    }

    /// A well-formed column's field carries the marker's logical type.
    pub open spec fn well_formed(self) -> bool {
        dtype_equal(self.spec_field_dtype(), T::spec_dtype())
    }

    /// Build a column from a name and its optional values.
    pub fn new(name: String, values: Vec<Option<T::Native>>) -> (c: ChunkedArray<T>)
        ensures
            c.well_formed(),
            c.spec_values() == values@,
            c.spec_name() == name@,
    {
        let dtype = T::get_dtype();
        ChunkedArray { field: Field::new(name, dtype), values }
    }

    /// The number of elements, nulls included.
    pub fn len(&self) -> (r: usize)
        ensures
            r == self.spec_values().len(),
    {
        self.values.len()
    }

    /// The column's logical type.
    pub fn dtype(&self) -> (r: &DataType)
        ensures
            *r == self.spec_field_dtype(),
    {
        self.field.dtype()
    }

    /// The column's name.
    pub fn name(&self) -> (r: &String)
        ensures
            r@ == self.spec_name(),
    {
        self.field.name()
    }

    /// The column's values; a `None` element is a null.
    pub fn values(&self) -> (r: &Vec<Option<T::Native>>)
        ensures
            r@ == self.spec_values(),
    {
        &self.values
    }
}

/// A boolean column: a named field plus optional boolean values.
pub struct BooleanChunked {
    field: Field,
    values: Vec<Option<bool>>,
}

impl BooleanChunked {
    /// The column's values, as a spec-level sequence.
    pub closed spec fn spec_values(self) -> Seq<Option<bool>> {
        self.values@
    }

    /// The logical type recorded on the column's field.
    pub closed spec fn spec_field_dtype(self) -> DataType {
        self.field.spec_dtype()
    }

    /// Build a boolean column from a name and its optional values.
    pub fn new(name: String, values: Vec<Option<bool>>) -> (c: BooleanChunked)
        ensures
            c.spec_field_dtype() == DataType::Boolean,
            c.spec_values() == values@,
    {
        BooleanChunked { field: Field::new(name, DataType::Boolean), values }
    }

    /// The number of elements, nulls included.
    pub fn len(&self) -> (r: usize)
        ensures
            r == self.spec_values().len(),
    {
        self.values.len()
    }
}

/// A UTF-8 text column: a named field plus optional strings.
pub struct Utf8Chunked {
    field: Field,
    values: Vec<Option<String>>,
}

impl Utf8Chunked {
    /// The logical type recorded on the column's field.
    pub closed spec fn spec_field_dtype(self) -> DataType {
        self.field.spec_dtype()
    }

    /// Build a text column from a name and its optional values.
    pub fn new(name: String, values: Vec<Option<String>>) -> (c: Utf8Chunked)
        ensures
            c.spec_field_dtype() == DataType::Utf8,
    {
        Utf8Chunked { field: Field::new(name, DataType::Utf8), values }
    }

    /// The number of elements, nulls included.
    pub fn len(&self) -> (r: usize) {
        self.values.len()
    }
}

/// A binary column: a named field plus optional byte strings.
pub struct BinaryChunked {
    field: Field,
    values: Vec<Option<Vec<u8>>>,
}

impl BinaryChunked {
    /// The logical type recorded on the column's field.
    pub closed spec fn spec_field_dtype(self) -> DataType {
        self.field.spec_dtype()
    }

    /// Build a binary column from a name and its optional values.
    pub fn new(name: String, values: Vec<Option<Vec<u8>>>) -> (c: BinaryChunked)
        ensures
            c.spec_field_dtype() == DataType::Binary,
    {
        BinaryChunked { field: Field::new(name, DataType::Binary), values }
    }

    /// The number of elements, nulls included.
    pub fn len(&self) -> (r: usize) {
        self.values.len()
    }
}

/// A list column: a named field whose logical type nests the element type.
/// Element storage belongs to the external array library.
pub struct ListChunked {
    field: Field,
}

impl ListChunked {
    /// The logical type recorded on the column's field.
    pub closed spec fn spec_field_dtype(self) -> DataType {
        self.field.spec_dtype()
    }

    /// Build a list column descriptor from a name and its element type.
    pub fn new(name: String, inner: DataType) -> (c: ListChunked)
        ensures
            c.spec_field_dtype() == DataType::List(Box::new(inner)),
    {
        ListChunked { field: Field::new(name, DataType::List(Box::new(inner))) }
    }
}

/// A fixed-size list column: a named field whose logical type nests the
/// element type and the fixed length. Element storage belongs to the
/// external array library.
pub struct ArrayChunked {
    field: Field,
}

impl ArrayChunked {
    /// The logical type recorded on the column's field.
    pub closed spec fn spec_field_dtype(self) -> DataType {
        self.field.spec_dtype()
    }

    /// Build a fixed-size list column descriptor from a name, its element
    /// type and its length.
    pub fn new(name: String, inner: DataType, width: usize) -> (c: ArrayChunked)
        ensures
            c.spec_field_dtype() == DataType::Array(Box::new(inner), width),
    {
        ArrayChunked { field: Field::new(name, DataType::Array(Box::new(inner), width)) }
    }
}

} // verus!
