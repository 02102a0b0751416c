//! Logical type catalog: a closed, recursively nestable description of every
//! representable column type, with structural equality and recursive
//! inspection. Pure representation; no operation here can fail.

use vstd::prelude::*;

verus! {

/// Resolution of a temporal value.
#[derive(Clone, Copy, PartialEq, Eq, Structural, Debug)]
pub enum TimeUnit {
    Nanoseconds,
    Microseconds,
    Milliseconds,
}

/// The logical data type of a column.
///
/// `List` and `Array` are recursive: their element field is itself a logical
/// type. An unbound element type is represented by `Null` as a placeholder,
/// never by omission; `List(Null)` denotes "unknown element type" and is
/// distinct from any concrete element type.
#[derive(PartialEq, Eq, Debug)]
pub enum DataType {
    Null,
    Boolean,
    UInt8,
    UInt16,
    UInt32,
    UInt64,
    Int8,
    Int16,
    Int32,
    Int64,
    Float32,
    Float64,
    /// UTF-8 text.
    Utf8,
    /// Opaque binary data.
    Binary,
    Date,
    /// Timestamp in the given unit, with an optional time zone name.
    Datetime(TimeUnit, Option<String>),
    Duration(TimeUnit),
    Time,
    /// Dictionary-encoded text; the category dictionary is runtime metadata
    /// carried on the concrete column, not part of the logical description.
    Categorical,
    /// Fixed-point decimal with optional precision and scale.
    Decimal(Option<usize>, Option<usize>),
    /// Variable-length list with the given element type.
    List(Box<DataType>),
    /// Fixed-size list with the given element type and length.
    Array(Box<DataType>, usize),
    /// Opaque user object, identified by its type name.
    Object(&'static str),
    Unknown,
}

/// Structural equality on optional time-zone names: both absent, or both
/// present with the same characters.
pub open spec fn tz_equal(a: Option<String>, b: Option<String>) -> bool {
    match (a, b) {
        (Option::None, Option::None) => true,
        (Option::Some(x), Option::Some(y)) => x@ == y@,
        _ => false,
    }
}

/// Structural equality of logical types: exact and recursive. Every field of
/// every variant must match; there is no coercive equality between the
/// `Null` placeholder and a concrete element type.
pub open spec fn dtype_equal(a: DataType, b: DataType) -> bool
    decreases a,
{
    match (a, b) {
        (DataType::Null, DataType::Null) => true,
        (DataType::Boolean, DataType::Boolean) => true,
        (DataType::UInt8, DataType::UInt8) => true,
        (DataType::UInt16, DataType::UInt16) => true,
        (DataType::UInt32, DataType::UInt32) => true,
        (DataType::UInt64, DataType::UInt64) => true,
        (DataType::Int8, DataType::Int8) => true,
        (DataType::Int16, DataType::Int16) => true,
        (DataType::Int32, DataType::Int32) => true,
        (DataType::Int64, DataType::Int64) => true,
        (DataType::Float32, DataType::Float32) => true,
        (DataType::Float64, DataType::Float64) => true,
        (DataType::Utf8, DataType::Utf8) => true,
        (DataType::Binary, DataType::Binary) => true,
        (DataType::Date, DataType::Date) => true,
        (DataType::Datetime(tua, tza), DataType::Datetime(tub, tzb)) => tua == tub && tz_equal(
            tza,
            tzb,
        ),
        (DataType::Duration(tua), DataType::Duration(tub)) => tua == tub,
        (DataType::Time, DataType::Time) => true,
        (DataType::Categorical, DataType::Categorical) => true,
        (DataType::Decimal(pa, sa), DataType::Decimal(pb, sb)) => pa == pb && sa == sb,
        (DataType::List(ea), DataType::List(eb)) => dtype_equal(*ea, *eb),
        (DataType::Array(ea, na), DataType::Array(eb, nb)) => na == nb && dtype_equal(*ea, *eb),
        (DataType::Object(na), DataType::Object(nb)) => na@ == nb@,
        (DataType::Unknown, DataType::Unknown) => true,
        _ => false,
    }
}

/// Structural equality is reflexive: every logical type equals itself.
pub proof fn lemma_dtype_equal_reflexive(d: DataType)
    ensures
        dtype_equal(d, d),
    decreases d,
{
    match d {
        DataType::List(inner) => {
            lemma_dtype_equal_reflexive(*inner);
        },
        DataType::Array(inner, _) => {
            lemma_dtype_equal_reflexive(*inner);
        },
        _ => {},
    }
}

/// The element type of a nested logical type, if there is one.
pub open spec fn spec_inner_dtype(d: DataType) -> Option<DataType> {
    match d {
        DataType::List(inner) => Option::Some(*inner),
        DataType::Array(inner, _) => Option::Some(*inner),
        _ => Option::None,
    }
}

/// Whether the logical type is a fixed-width integer.
pub open spec fn spec_is_integer(d: DataType) -> bool {
    match d {
        DataType::UInt8
        | DataType::UInt16
        | DataType::UInt32
        | DataType::UInt64
        | DataType::Int8
        | DataType::Int16
        | DataType::Int32
        | DataType::Int64 => true,
        _ => false,
    }
}

/// Whether the logical type is a floating-point width.
pub open spec fn spec_is_float(d: DataType) -> bool {
    match d {
        DataType::Float32 | DataType::Float64 => true,
        _ => false,
    }
}

/// Whether the logical type is numeric: a fixed-width integer or a float.
pub open spec fn spec_is_numeric(d: DataType) -> bool {
    spec_is_integer(d) || spec_is_float(d)
}

/// Whether the logical type nests another logical type.
pub open spec fn spec_is_nested(d: DataType) -> bool {
    match d {
        DataType::List(_) | DataType::Array(_, _) => true,
        _ => false,
    }
}

impl DataType {
    /// Structural equality, exact and recursive.
    pub fn eq_dtype(&self, other: &DataType) -> (r: bool)
        ensures
            r == dtype_equal(*self, *other),
        decreases *self,
    {
        match (self, other) {
            (DataType::Null, DataType::Null) => true,
            (DataType::Boolean, DataType::Boolean) => true,
            (DataType::UInt8, DataType::UInt8) => true,
            (DataType::UInt16, DataType::UInt16) => true,
            (DataType::UInt32, DataType::UInt32) => true,
            (DataType::UInt64, DataType::UInt64) => true,
            (DataType::Int8, DataType::Int8) => true,
            (DataType::Int16, DataType::Int16) => true,
            (DataType::Int32, DataType::Int32) => true,
            (DataType::Int64, DataType::Int64) => true,
            (DataType::Float32, DataType::Float32) => true,
            (DataType::Float64, DataType::Float64) => true,
            (DataType::Utf8, DataType::Utf8) => true,
            (DataType::Binary, DataType::Binary) => true,
            (DataType::Date, DataType::Date) => true,
            (DataType::Datetime(tua, tza), DataType::Datetime(tub, tzb)) => {
                tua.eq_unit(tub) && tz_eq(tza, tzb)
            },
            (DataType::Duration(tua), DataType::Duration(tub)) => tua.eq_unit(tub),
            (DataType::Time, DataType::Time) => true,
            (DataType::Categorical, DataType::Categorical) => true,
            (DataType::Decimal(pa, sa), DataType::Decimal(pb, sb)) => {
                opt_usize_eq(pa, pb) && opt_usize_eq(sa, sb)
            },
            (DataType::List(ea), DataType::List(eb)) => ea.eq_dtype(eb),
            (DataType::Array(ea, na), DataType::Array(eb, nb)) => *na == *nb && ea.eq_dtype(eb),
            (DataType::Object(na), DataType::Object(nb)) => str_chars_eq(na, nb),
            (DataType::Unknown, DataType::Unknown) => true,
            _ => false,
        }
    }

    /// The element type of `List` or `Array`, if this type is nested.
    pub fn inner_dtype(&self) -> (r: Option<&DataType>)
        ensures
            match r {
                Option::Some(inner) => spec_inner_dtype(*self) == Option::Some(*inner),
                Option::None => spec_inner_dtype(*self) is None,
            },
    {
        match self {
            DataType::List(inner) => Option::Some(inner),
            DataType::Array(inner, _) => Option::Some(inner),
            _ => Option::None,
        }
    }

    /// The declared precision of a `Decimal`, when present.
    pub fn decimal_precision(&self) -> (r: Option<usize>)
        ensures
            r == (match *self {
                DataType::Decimal(precision, _) => precision,
                _ => Option::<usize>::None,
            }),
    {
        match self {
            DataType::Decimal(precision, _) => *precision,
            _ => Option::None,
        }
    }

    /// The declared scale of a `Decimal`, when present.
    pub fn decimal_scale(&self) -> (r: Option<usize>)
        ensures
            r == (match *self {
                DataType::Decimal(_, scale) => scale,
                _ => Option::<usize>::None,
            }),
    {
        match self {
            DataType::Decimal(_, scale) => *scale,
            _ => Option::None,
        }
    }

    /// The type name of an `Object`, when present.
    pub fn object_name(&self) -> (r: Option<&'static str>)
        ensures
            match r {
                Option::Some(name) => *self matches DataType::Object(n) && n@ == name@,
                Option::None => !(*self matches DataType::Object(_)),
            },
    {
        match self {
            DataType::Object(name) => Option::Some(*name),
            _ => Option::None,
        }
    }

    /// The time unit of a `Datetime` or `Duration`, when present.
    pub fn time_unit(&self) -> (r: Option<TimeUnit>)
        ensures
            r == (match *self {
                DataType::Datetime(tu, _) => Option::Some(tu),
                DataType::Duration(tu) => Option::Some(tu),
                _ => Option::<TimeUnit>::None,
            }),
    {
        match self {
            DataType::Datetime(tu, _) => Option::Some(*tu),
            DataType::Duration(tu) => Option::Some(*tu),
            _ => Option::None,
        }
    }

    /// Whether this type is a fixed-width integer.
    pub fn is_integer(&self) -> (r: bool)
        ensures
            r == spec_is_integer(*self),
    {
        match self {
            DataType::UInt8
            | DataType::UInt16
            | DataType::UInt32
            | DataType::UInt64
            | DataType::Int8
            | DataType::Int16
            | DataType::Int32
            | DataType::Int64 => true,
            _ => false,
        }
    }

    /// Whether this type is a floating-point width.
    pub fn is_float(&self) -> (r: bool)
        ensures
            r == spec_is_float(*self),
    {
        match self {
            DataType::Float32 | DataType::Float64 => true,
            _ => false,
        }
    }

    /// Whether this type is numeric: a fixed-width integer or a float.
    pub fn is_numeric(&self) -> (r: bool)
        ensures
            r == spec_is_numeric(*self),
    {
        self.is_integer() || self.is_float()
    }

    /// Whether this type nests another logical type.
    pub fn is_nested(&self) -> (r: bool)
        ensures
            r == spec_is_nested(*self),
    {
        match self {
            DataType::List(_) | DataType::Array(_, _) => true,
            _ => false,
        }
    }
}

impl TimeUnit {
    /// Equality of time units.
    pub fn eq_unit(&self, other: &TimeUnit) -> (r: bool)
        ensures
            r == (*self == *other),
    {
        match (self, other) {
            (TimeUnit::Nanoseconds, TimeUnit::Nanoseconds) => true,
            (TimeUnit::Microseconds, TimeUnit::Microseconds) => true,
            (TimeUnit::Milliseconds, TimeUnit::Milliseconds) => true,
            _ => false,
        }
    }
}

/// Equality of optional time-zone names.
fn tz_eq(a: &Option<String>, b: &Option<String>) -> (r: bool)
    ensures
        r == tz_equal(*a, *b),
{
    match (a, b) {
        (Option::None, Option::None) => true,
        (Option::Some(x), Option::Some(y)) => str_chars_eq(x.as_str(), y.as_str()),
        _ => false,
    }
}

/// Equality of string slices, character by character.
fn str_chars_eq(a: &str, b: &str) -> (r: bool)
    ensures
        r == (a@ == b@),
{
    let a_owned: String = a.to_owned();
    let b_owned: String = b.to_owned();
    a_owned == b_owned
}

/// Equality of optional widths.
fn opt_usize_eq(a: &Option<usize>, b: &Option<usize>) -> (r: bool)
    ensures
        r == (*a == *b),
{
    match (a, b) {
        (Option::None, Option::None) => true,
        (Option::Some(x), Option::Some(y)) => *x == *y,
        _ => false,
    }
}

/// A named column field: an immutable name paired with one logical type.
#[derive(Debug)]
pub struct Field {
    name: String,
    dtype: DataType,
}

impl Field {
    /// Pair a column name with its logical type.
    pub fn new(name: String, dtype: DataType) -> (f: Field)
        ensures
            f.spec_name() == name@,
            f.spec_dtype() == dtype,
    {
        Field { name, dtype }
    }

    /// The field's name.
    pub fn name(&self) -> (r: &String)
        ensures
            r@ == self.spec_name(),
    {
        &self.name
    }

    /// The field's logical type.
    pub fn dtype(&self) -> (r: &DataType)
        ensures
            *r == self.spec_dtype(),
    {
        &self.dtype
    }

    /// The field's logical type, as a spec-level value.
    pub closed spec fn spec_dtype(self) -> DataType {
        self.dtype
    }

    /// The field's name, as a spec-level value.
    pub closed spec fn spec_name(self) -> Seq<char> {
        self.name@
    }
}

} // verus!
