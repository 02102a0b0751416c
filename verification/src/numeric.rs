//! Numeric trait hierarchy: capability layering that associates a logical
//! numeric marker with exactly one native machine scalar type, and
//! classifies markers as integral or floating.
//!
//! The native-scalar contract is stated directly as verified trait
//! obligations: total ordering, the arithmetic group with exact-range
//! preconditions, in-place add and subtract, additive and multiplicative
//! identities, saturating bounds, checked primitive-to-primitive casts, and
//! a float-ness flag. Every later kernel is written once against these
//! traits instead of once per scalar width.
//!
//! The two float widths have no native impls here: floating-point values
//! stay outside the verified core, behind the float marker types alone.

use vstd::prelude::*;

use crate::backing::PrimitiveKind;
use crate::datatypes::Int128Type;
use crate::datatypes::Int16Type;
use crate::datatypes::Int32Type;
use crate::datatypes::Int64Type;
use crate::datatypes::Int8Type;
use crate::datatypes::UInt16Type;
use crate::datatypes::UInt32Type;
use crate::datatypes::UInt64Type;
use crate::datatypes::UInt8Type;
use crate::datatypes::PolarsDataType;

verus! {

/// Truncating division: what the machine's division operator returns,
/// rounding toward zero. Spec-level `/` rounds so that the remainder is
/// never negative; negating a negative dividend reduces the one to the
/// other.
pub open spec fn trunc_div(a: int, b: int) -> int {
    if a >= 0 {
        a / b
    } else {
        -((-a) / b)
    }
}

/// Truncating remainder: what the machine's remainder operator returns,
/// with the sign of the dividend.
pub open spec fn trunc_rem(a: int, b: int) -> int {
    if a >= 0 {
        a % b
    } else {
        -((-a) % b)
    }
}

/// Division of a nonnegative value by a negative divisor, reduced to
/// division by the divisor's negation.
proof fn lemma_div_neg_divisor(x: int, d: int)
    requires
        x >= 0,
        d < 0,
    ensures
        x / d == -(x / (-d)),
{
    let e = -d;
    vstd::arithmetic::div_mod::lemma_fundamental_div_mod(x, e);
    vstd::arithmetic::div_mod::lemma_mod_bound(x, e);
    vstd::arithmetic::div_mod::lemma_fundamental_div_mod(x, d);
    let q1 = x / e;
    let r1 = x % e;
    let q2 = x / d;
    let r2 = x % d;
    assert(0 <= x % d < -d) by (nonlinear_arith)
        requires d < 0;
    assert(e * (q1 + q2) == r2 - r1) by (nonlinear_arith)
        requires x == e * q1 + r1, x == d * q2 + r2, d == -e;
    assert(q1 + q2 == 0) by (nonlinear_arith)
        requires e * (q1 + q2) == r2 - r1, 0 <= r1 < e, 0 <= r2 < e;
}

/// The truncating quotient of a two's-complement value stays representable
/// for every divisor but minus one on the smallest value.
proof fn lemma_trunc_div_in_range(a: int, b: int, lo: int, hi: int)
    requires
        b != 0,
        lo < 0 < hi,
        lo + hi == -1,
        lo <= a <= hi,
        !(a == lo && b == -1),
    ensures
        lo <= trunc_div(a, b) <= hi,
{
    if a >= 0 {
        if b > 0 {
            vstd::arithmetic::div_mod::lemma_div_pos_is_pos(a, b);
            vstd::arithmetic::div_mod::lemma_div_nonincreasing(a, b);
        } else {
            lemma_div_neg_divisor(a, b);
            vstd::arithmetic::div_mod::lemma_div_pos_is_pos(a, -b);
            vstd::arithmetic::div_mod::lemma_div_nonincreasing(a, -b);
        }
    } else {
        let x = -a;
        let e = if b > 0 { b } else { -b };
        if b < 0 {
            lemma_div_neg_divisor(x, b);
        }
        vstd::arithmetic::div_mod::lemma_div_pos_is_pos(x, e);
        if e == 1 {
            vstd::arithmetic::div_mod::lemma_div_basics_1(x);
            assert(x / 1 == x);
        } else {
            vstd::arithmetic::div_mod::lemma_div_is_ordered_by_denominator(x, 2, e);
            vstd::arithmetic::div_mod::lemma_div_is_ordered(x, hi + 1, 2);
            assert((hi + 1) / 2 <= hi) by (nonlinear_arith)
                requires hi >= 1;
        }
    }
}

/// A native machine scalar type paired with exactly one numeric marker.
///
/// The pairing is invertible: native type -> marker -> the native type the
/// marker associates round-trips, which the `POLARSTYPE` bound states at
/// the type level. The remaining obligations are the native-scalar
/// contract every numeric kernel relies on.
pub trait NumericNative: Sized + Copy {
    /// The one numeric marker this native type is paired with.
    type POLARSTYPE: PolarsNumericType<Native = Self>;

    /// The mathematical value of this scalar.
    spec fn as_int(self) -> int;

    /// The smallest representable value.
    spec fn min_int() -> int;

    /// The largest representable value.
    spec fn max_int() -> int;

    /// Whether this native type is a float width.
    spec fn spec_is_float() -> bool;

    /// Every value lies between the saturating bounds.
    proof fn lemma_in_range(self)
        ensures
            Self::min_int() <= self.as_int() <= Self::max_int(),
    ;

    /// The saturating bounds lie within the 128-bit integer span, so a
    /// widening cast to 128 bits never loses a value.
    proof fn lemma_bounds_fit_i128()
        ensures
            -0x8000_0000_0000_0000_0000_0000_0000_0000 <= Self::min_int(),
            Self::max_int() <= 0x7fff_ffff_ffff_ffff_ffff_ffff_ffff_ffff,
    ;

    /// The additive identity.
    fn zero() -> (r: Self)
        ensures
            r.as_int() == 0,
    ;

    /// The multiplicative identity.
    fn one() -> (r: Self)
        ensures
            r.as_int() == 1,
    ;

    /// The smallest representable value: the lower saturating bound.
    fn min_value() -> (r: Self)
        ensures
            r.as_int() == Self::min_int(),
    ;

    /// The largest representable value: the upper saturating bound.
    fn max_value() -> (r: Self)
        ensures
            r.as_int() == Self::max_int(),
    ;

    /// The float-ness flag, used by NaN-aware comparison elsewhere.
    fn is_float() -> (r: bool)
        ensures
            r == Self::spec_is_float(),
    ;

    /// Total ordering: less-or-equal.
    fn less_eq(self, other: Self) -> (r: bool)
        ensures
            r == (self.as_int() <= other.as_int()),
    ;

    /// Total ordering: strictly-less.
    fn less_than(self, other: Self) -> (r: bool)
        ensures
            r == (self.as_int() < other.as_int()),
    ;

    /// Exact addition, for sums the type can represent.
    fn add_exact(self, other: Self) -> (r: Self)
        requires
            Self::min_int() <= self.as_int() + other.as_int() <= Self::max_int(),
        ensures
            r.as_int() == self.as_int() + other.as_int(),
    ;

    /// Exact subtraction, for differences the type can represent.
    fn sub_exact(self, other: Self) -> (r: Self)
        requires
            Self::min_int() <= self.as_int() - other.as_int() <= Self::max_int(),
        ensures
            r.as_int() == self.as_int() - other.as_int(),
    ;

    /// Exact multiplication, for products the type can represent.
    fn mul_exact(self, other: Self) -> (r: Self)
        requires
            Self::min_int() <= self.as_int() * other.as_int() <= Self::max_int(),
        ensures
            r.as_int() == self.as_int() * other.as_int(),
    ;

    /// Truncating division, for a non-zero divisor; the one unrepresentable
    /// quotient, the smallest value divided by minus one, is excluded.
    fn div_trunc(self, other: Self) -> (r: Self)
        requires
            other.as_int() != 0,
            !(self.as_int() == Self::min_int() && other.as_int() == -1),
        ensures
            r.as_int() == trunc_div(self.as_int(), other.as_int()),
    ;

    /// Truncating remainder, for a non-zero divisor; the one pairing whose
    /// quotient is unrepresentable, the smallest value with minus one, is
    /// excluded.
    fn rem_trunc(self, other: Self) -> (r: Self)
        requires
            other.as_int() != 0,
            !(self.as_int() == Self::min_int() && other.as_int() == -1),
        ensures
            r.as_int() == trunc_rem(self.as_int(), other.as_int()),
    ;

    /// In-place exact addition.
    fn add_assign_exact(&mut self, other: Self)
        requires
            Self::min_int() <= old(self).as_int() + other.as_int() <= Self::max_int(),
        ensures
            final(self).as_int() == old(self).as_int() + other.as_int(),
    ;

    /// In-place exact subtraction.
    fn sub_assign_exact(&mut self, other: Self)
        requires
            Self::min_int() <= old(self).as_int() - other.as_int() <= Self::max_int(),
        ensures
            final(self).as_int() == old(self).as_int() - other.as_int(),
    ;

    /// Checked cast from a 128-bit integer: succeeds exactly on the values
    /// this type represents.
    fn from_i128_checked(v: i128) -> (r: Option<Self>)
        ensures
            (r is Some) == (Self::min_int() <= v as int <= Self::max_int()),
            r matches Option::Some(x) ==> x.as_int() == v as int,
    ;

    /// Widening cast to a 128-bit integer.
    fn to_i128(self) -> (r: i128)
        ensures
            r as int == self.as_int(),
    ;
}

/// A marker whose logical type is numeric: it carries its associated native
/// machine scalar type and the primitive physical width its columns use.
pub trait PolarsNumericType: PolarsDataType {
    /// The native machine scalar type associated with this marker. The
    /// native's own `POLARSTYPE` bound points back at the marker, which
    /// states the round trip at the type level.
    type Native;

    /// The primitive physical width of this marker's columns.
    spec fn spec_prim_kind() -> PrimitiveKind;

    /// The primitive physical width of this marker's columns.
    fn prim_kind() -> (r: PrimitiveKind)
        ensures
            r == Self::spec_prim_kind(),
    ;
}

/// A numeric marker whose native type is one of the integer widths.
pub trait PolarsIntegerType: PolarsNumericType where Self::Native: NumericNative {
    /// Every value of an integer native lies in the span the rolling
    /// kernels accumulate exactly: from the smallest signed 64-bit value to
    /// the largest unsigned 64-bit value.
    proof fn native_in_rolling_range(v: Self::Native)
        ensures
            -0x8000_0000_0000_0000 <= v.as_int() <= 0xffff_ffff_ffff_ffff,
    ;
}

/// A numeric marker whose native type is one of the float widths. Float
/// natives hold no `NumericNative` impl in this crate: floating-point
/// values stay outside the verified core.
pub trait PolarsFloatType: PolarsNumericType {
}

/// A native value sent through its numeric marker and back to the native
/// type that marker associates: the round trip is the identity. The
/// return type is written through the marker, so the type system itself
/// carries the proof.
pub fn numeric_native_round_trip<N: NumericNative>(x: N) -> (r: <N::POLARSTYPE as PolarsNumericType>::Native)
    ensures
        r == x,
{
    x
}

impl NumericNative for u8 {
    type POLARSTYPE = UInt8Type;

    open spec fn as_int(self) -> int {
        self as int
    }

    open spec fn min_int() -> int {
        0
    }

    open spec fn max_int() -> int {
        0xff
    }

    open spec fn spec_is_float() -> bool {
        false
    }

    proof fn lemma_in_range(self) {
    }

    proof fn lemma_bounds_fit_i128() {
    }

    fn zero() -> (r: u8) {
        0
    }

    fn one() -> (r: u8) {
        1
    }

    fn min_value() -> (r: u8) {
        0
    }

    fn max_value() -> (r: u8) {
        0xff
    }

    fn is_float() -> (r: bool) {
        false
    }

    fn less_eq(self, other: u8) -> (r: bool) {
        self <= other
    }

    fn less_than(self, other: u8) -> (r: bool) {
        self < other
    }

    fn add_exact(self, other: u8) -> (r: u8) {
        self + other
    }

    fn sub_exact(self, other: u8) -> (r: u8) {
        self - other
    }

    fn mul_exact(self, other: u8) -> (r: u8) {
        self * other
    }

    fn div_trunc(self, other: u8) -> (r: u8) {
        self / other
    }

    fn rem_trunc(self, other: u8) -> (r: u8) {
        self % other
    }

    fn add_assign_exact(&mut self, other: u8) {
        *self = *self + other;
    }

    fn sub_assign_exact(&mut self, other: u8) {
        *self = *self - other;
    }

    fn from_i128_checked(v: i128) -> (r: Option<u8>) {
        if 0 <= v && v <= 0xff {
            Option::Some(v as u8)
        } else {
            Option::None
        }
    }

    fn to_i128(self) -> (r: i128) {
        self as i128
    }
}

impl PolarsNumericType for UInt8Type {
    type Native = u8;

    open spec fn spec_prim_kind() -> PrimitiveKind {
        PrimitiveKind::UInt8
    }

    fn prim_kind() -> (r: PrimitiveKind) {
        PrimitiveKind::UInt8
    }
}

impl NumericNative for u16 {
    type POLARSTYPE = UInt16Type;

    open spec fn as_int(self) -> int {
        self as int
    }

    open spec fn min_int() -> int {
        0
    }

    open spec fn max_int() -> int {
        0xffff
    }

    open spec fn spec_is_float() -> bool {
        false
    }

    proof fn lemma_in_range(self) {
    }

    proof fn lemma_bounds_fit_i128() {
    }

    fn zero() -> (r: u16) {
        0
    }

    fn one() -> (r: u16) {
        1
    }

    fn min_value() -> (r: u16) {
        0
    }

    fn max_value() -> (r: u16) {
        0xffff
    }

    fn is_float() -> (r: bool) {
        false
    }

    fn less_eq(self, other: u16) -> (r: bool) {
        self <= other
    }

    fn less_than(self, other: u16) -> (r: bool) {
        self < other
    }

    fn add_exact(self, other: u16) -> (r: u16) {
        self + other
    }

    fn sub_exact(self, other: u16) -> (r: u16) {
        self - other
    }

    fn mul_exact(self, other: u16) -> (r: u16) {
        self * other
    }

    fn div_trunc(self, other: u16) -> (r: u16) {
        self / other
    }

    fn rem_trunc(self, other: u16) -> (r: u16) {
        self % other
    }

    fn add_assign_exact(&mut self, other: u16) {
        *self = *self + other;
    }

    fn sub_assign_exact(&mut self, other: u16) {
        *self = *self - other;
    }

    fn from_i128_checked(v: i128) -> (r: Option<u16>) {
        if 0 <= v && v <= 0xffff {
            Option::Some(v as u16)
        } else {
            Option::None
        }
    }

    fn to_i128(self) -> (r: i128) {
        self as i128
    }
}

impl PolarsNumericType for UInt16Type {
    type Native = u16;

    open spec fn spec_prim_kind() -> PrimitiveKind {
        PrimitiveKind::UInt16
    }

    fn prim_kind() -> (r: PrimitiveKind) {
        PrimitiveKind::UInt16
    }
}

impl NumericNative for u32 {
    type POLARSTYPE = UInt32Type;

    open spec fn as_int(self) -> int {
        self as int
    }

    open spec fn min_int() -> int {
        0
    }

    open spec fn max_int() -> int {
        0xffff_ffff
    }

    open spec fn spec_is_float() -> bool {
        false
    }

    proof fn lemma_in_range(self) {
    }

    proof fn lemma_bounds_fit_i128() {
    }

    fn zero() -> (r: u32) {
        0
    }

    fn one() -> (r: u32) {
        1
    }

    fn min_value() -> (r: u32) {
        0
    }

    fn max_value() -> (r: u32) {
        0xffff_ffff
    }

    fn is_float() -> (r: bool) {
        false
    }

    fn less_eq(self, other: u32) -> (r: bool) {
        self <= other
    }

    fn less_than(self, other: u32) -> (r: bool) {
        self < other
    }

    fn add_exact(self, other: u32) -> (r: u32) {
        self + other
    }

    fn sub_exact(self, other: u32) -> (r: u32) {
        self - other
    }

    fn mul_exact(self, other: u32) -> (r: u32) {
        self * other
    }

    fn div_trunc(self, other: u32) -> (r: u32) {
        self / other
    }

    fn rem_trunc(self, other: u32) -> (r: u32) {
        self % other
    }

    fn add_assign_exact(&mut self, other: u32) {
        *self = *self + other;
    }

    fn sub_assign_exact(&mut self, other: u32) {
        *self = *self - other;
    }

    fn from_i128_checked(v: i128) -> (r: Option<u32>) {
        if 0 <= v && v <= 0xffff_ffff {
            Option::Some(v as u32)
        } else {
            Option::None
        }
    }

    fn to_i128(self) -> (r: i128) {
        self as i128
    }
}

impl PolarsNumericType for UInt32Type {
    type Native = u32;

    open spec fn spec_prim_kind() -> PrimitiveKind {
        PrimitiveKind::UInt32
    }

    fn prim_kind() -> (r: PrimitiveKind) {
        PrimitiveKind::UInt32
    }
}

impl NumericNative for u64 {
    type POLARSTYPE = UInt64Type;

    open spec fn as_int(self) -> int {
        self as int
    }

    open spec fn min_int() -> int {
        0
    }

    open spec fn max_int() -> int {
        0xffff_ffff_ffff_ffff
    }

    open spec fn spec_is_float() -> bool {
        false
    }

    proof fn lemma_in_range(self) {
    }

    proof fn lemma_bounds_fit_i128() {
    }

    fn zero() -> (r: u64) {
        0
    }

    fn one() -> (r: u64) {
        1
    }

    fn min_value() -> (r: u64) {
        0
    }

    fn max_value() -> (r: u64) {
        0xffff_ffff_ffff_ffff
    }

    fn is_float() -> (r: bool) {
        false
    }

    fn less_eq(self, other: u64) -> (r: bool) {
        self <= other
    }

    fn less_than(self, other: u64) -> (r: bool) {
        self < other
    }

    fn add_exact(self, other: u64) -> (r: u64) {
        self + other
    }

    fn sub_exact(self, other: u64) -> (r: u64) {
        self - other
    }

    fn mul_exact(self, other: u64) -> (r: u64) {
        self * other
    }

    fn div_trunc(self, other: u64) -> (r: u64) {
        self / other
    }

    fn rem_trunc(self, other: u64) -> (r: u64) {
        self % other
    }

    fn add_assign_exact(&mut self, other: u64) {
        *self = *self + other;
    }

    fn sub_assign_exact(&mut self, other: u64) {
        *self = *self - other;
    }

    fn from_i128_checked(v: i128) -> (r: Option<u64>) {
        if 0 <= v && v <= 0xffff_ffff_ffff_ffff {
            Option::Some(v as u64)
        } else {
            Option::None
        }
    }

    fn to_i128(self) -> (r: i128) {
        self as i128
    }
}

impl PolarsNumericType for UInt64Type {
    type Native = u64;

    open spec fn spec_prim_kind() -> PrimitiveKind {
        PrimitiveKind::UInt64
    }

    fn prim_kind() -> (r: PrimitiveKind) {
        PrimitiveKind::UInt64
    }
}

impl NumericNative for i8 {
    type POLARSTYPE = Int8Type;

    open spec fn as_int(self) -> int {
        self as int
    }

    open spec fn min_int() -> int {
        -0x80
    }

    open spec fn max_int() -> int {
        0x7f
    }

    open spec fn spec_is_float() -> bool {
        false
    }

    proof fn lemma_in_range(self) {
    }

    proof fn lemma_bounds_fit_i128() {
    }

    fn zero() -> (r: i8) {
        0
    }

    fn one() -> (r: i8) {
        1
    }

    fn min_value() -> (r: i8) {
        -0x80
    }

    fn max_value() -> (r: i8) {
        0x7f
    }

    fn is_float() -> (r: bool) {
        false
    }

    fn less_eq(self, other: i8) -> (r: bool) {
        self <= other
    }

    fn less_than(self, other: i8) -> (r: bool) {
        self < other
    }

    fn add_exact(self, other: i8) -> (r: i8) {
        self + other
    }

    fn sub_exact(self, other: i8) -> (r: i8) {
        self - other
    }

    fn mul_exact(self, other: i8) -> (r: i8) {
        self * other
    }

    fn div_trunc(self, other: i8) -> (r: i8) {
        proof {
            lemma_trunc_div_in_range(self as int, other as int, -0x80, 0x7f);
        }
        self / other
    }

    fn rem_trunc(self, other: i8) -> (r: i8) {
        proof {
            lemma_trunc_div_in_range(self as int, other as int, -0x80, 0x7f);
        }
        self % other
    }

    fn add_assign_exact(&mut self, other: i8) {
        *self = *self + other;
    }

    fn sub_assign_exact(&mut self, other: i8) {
        *self = *self - other;
    }

    fn from_i128_checked(v: i128) -> (r: Option<i8>) {
        if -0x80 <= v && v <= 0x7f {
            Option::Some(v as i8)
        } else {
            Option::None
        }
    }

    fn to_i128(self) -> (r: i128) {
        self as i128
    }
}

impl PolarsNumericType for Int8Type {
    type Native = i8;

    open spec fn spec_prim_kind() -> PrimitiveKind {
        PrimitiveKind::Int8
    }

    fn prim_kind() -> (r: PrimitiveKind) {
        PrimitiveKind::Int8
    }
}

impl NumericNative for i16 {
    type POLARSTYPE = Int16Type;

    open spec fn as_int(self) -> int {
        self as int
    }

    open spec fn min_int() -> int {
        -0x8000
    }

    open spec fn max_int() -> int {
        0x7fff
    }

    open spec fn spec_is_float() -> bool {
        false
    }

    proof fn lemma_in_range(self) {
    }

    proof fn lemma_bounds_fit_i128() {
    }

    fn zero() -> (r: i16) {
        0
    }

    fn one() -> (r: i16) {
        1
    }

    fn min_value() -> (r: i16) {
        -0x8000
    }

    fn max_value() -> (r: i16) {
        0x7fff
    }

    fn is_float() -> (r: bool) {
        false
    }

    fn less_eq(self, other: i16) -> (r: bool) {
        self <= other
    }

    fn less_than(self, other: i16) -> (r: bool) {
        self < other
    }

    fn add_exact(self, other: i16) -> (r: i16) {
        self + other
    }

    fn sub_exact(self, other: i16) -> (r: i16) {
        self - other
    }

    fn mul_exact(self, other: i16) -> (r: i16) {
        self * other
    }

    fn div_trunc(self, other: i16) -> (r: i16) {
        proof {
            lemma_trunc_div_in_range(self as int, other as int, -0x8000, 0x7fff);
        }
        self / other
    }

    fn rem_trunc(self, other: i16) -> (r: i16) {
        proof {
            lemma_trunc_div_in_range(self as int, other as int, -0x8000, 0x7fff);
        }
        self % other
    }

    fn add_assign_exact(&mut self, other: i16) {
        *self = *self + other;
    }

    fn sub_assign_exact(&mut self, other: i16) {
        *self = *self - other;
    }

    fn from_i128_checked(v: i128) -> (r: Option<i16>) {
        if -0x8000 <= v && v <= 0x7fff {
            Option::Some(v as i16)
        } else {
            Option::None
        }
    }

    fn to_i128(self) -> (r: i128) {
        self as i128
    }
}

impl PolarsNumericType for Int16Type {
    type Native = i16;

    open spec fn spec_prim_kind() -> PrimitiveKind {
        PrimitiveKind::Int16
    }

    fn prim_kind() -> (r: PrimitiveKind) {
        PrimitiveKind::Int16
    }
}

impl NumericNative for i32 {
    type POLARSTYPE = Int32Type;

    open spec fn as_int(self) -> int {
        self as int
    }

    open spec fn min_int() -> int {
        -0x8000_0000
    }

    open spec fn max_int() -> int {
        0x7fff_ffff
    }

    open spec fn spec_is_float() -> bool {
        false
    }

    proof fn lemma_in_range(self) {
    }

    proof fn lemma_bounds_fit_i128() {
    }

    fn zero() -> (r: i32) {
        0
    }

    fn one() -> (r: i32) {
        1
    }

    fn min_value() -> (r: i32) {
        -0x8000_0000
    }

    fn max_value() -> (r: i32) {
        0x7fff_ffff
    }

    fn is_float() -> (r: bool) {
        false
    }

    fn less_eq(self, other: i32) -> (r: bool) {
        self <= other
    }

    fn less_than(self, other: i32) -> (r: bool) {
        self < other
    }

    fn add_exact(self, other: i32) -> (r: i32) {
        self + other
    }

    fn sub_exact(self, other: i32) -> (r: i32) {
        self - other
    }

    fn mul_exact(self, other: i32) -> (r: i32) {
        self * other
    }

    fn div_trunc(self, other: i32) -> (r: i32) {
        proof {
            lemma_trunc_div_in_range(self as int, other as int, -0x8000_0000, 0x7fff_ffff);
        }
        self / other
    }

    fn rem_trunc(self, other: i32) -> (r: i32) {
        proof {
            lemma_trunc_div_in_range(self as int, other as int, -0x8000_0000, 0x7fff_ffff);
        }
        self % other
    }

    fn add_assign_exact(&mut self, other: i32) {
        *self = *self + other;
    }

    fn sub_assign_exact(&mut self, other: i32) {
        *self = *self - other;
    }

    fn from_i128_checked(v: i128) -> (r: Option<i32>) {
        if -0x8000_0000 <= v && v <= 0x7fff_ffff {
            Option::Some(v as i32)
        } else {
            Option::None
        }
    }

    fn to_i128(self) -> (r: i128) {
        self as i128
    }
}

impl PolarsNumericType for Int32Type {
    type Native = i32;

    open spec fn spec_prim_kind() -> PrimitiveKind {
        PrimitiveKind::Int32
    }

    fn prim_kind() -> (r: PrimitiveKind) {
        PrimitiveKind::Int32
    }
}

impl NumericNative for i64 {
    type POLARSTYPE = Int64Type;

    open spec fn as_int(self) -> int {
        self as int
    }

    open spec fn min_int() -> int {
        -0x8000_0000_0000_0000
    }

    open spec fn max_int() -> int {
        0x7fff_ffff_ffff_ffff
    }

    open spec fn spec_is_float() -> bool {
        false
    }

    proof fn lemma_in_range(self) {
    }

    proof fn lemma_bounds_fit_i128() {
    }

    fn zero() -> (r: i64) {
        0
    }

    fn one() -> (r: i64) {
        1
    }

    fn min_value() -> (r: i64) {
        -0x8000_0000_0000_0000
    }

    fn max_value() -> (r: i64) {
        0x7fff_ffff_ffff_ffff
    }

    fn is_float() -> (r: bool) {
        false
    }

    fn less_eq(self, other: i64) -> (r: bool) {
        self <= other
    }

    fn less_than(self, other: i64) -> (r: bool) {
        self < other
    }

    fn add_exact(self, other: i64) -> (r: i64) {
        self + other
    }

    fn sub_exact(self, other: i64) -> (r: i64) {
        self - other
    }

    fn mul_exact(self, other: i64) -> (r: i64) {
        self * other
    }

    fn div_trunc(self, other: i64) -> (r: i64) {
        proof {
            lemma_trunc_div_in_range(self as int, other as int, -0x8000_0000_0000_0000, 0x7fff_ffff_ffff_ffff);
        }
        self / other
    }

    fn rem_trunc(self, other: i64) -> (r: i64) {
        proof {
            lemma_trunc_div_in_range(self as int, other as int, -0x8000_0000_0000_0000, 0x7fff_ffff_ffff_ffff);
        }
        self % other
    }

    fn add_assign_exact(&mut self, other: i64) {
        *self = *self + other;
    }

    fn sub_assign_exact(&mut self, other: i64) {
        *self = *self - other;
    }

    fn from_i128_checked(v: i128) -> (r: Option<i64>) {
        if -0x8000_0000_0000_0000 <= v && v <= 0x7fff_ffff_ffff_ffff {
            Option::Some(v as i64)
        } else {
            Option::None
        }
    }

    fn to_i128(self) -> (r: i128) {
        self as i128
    }
}

impl PolarsNumericType for Int64Type {
    type Native = i64;

    open spec fn spec_prim_kind() -> PrimitiveKind {
        PrimitiveKind::Int64
    }

    fn prim_kind() -> (r: PrimitiveKind) {
        PrimitiveKind::Int64
    }
}

impl NumericNative for i128 {
    type POLARSTYPE = Int128Type;

    open spec fn as_int(self) -> int {
        self as int
    }

    open spec fn min_int() -> int {
        -0x8000_0000_0000_0000_0000_0000_0000_0000
    }

    open spec fn max_int() -> int {
        0x7fff_ffff_ffff_ffff_ffff_ffff_ffff_ffff
    }

    open spec fn spec_is_float() -> bool {
        false
    }

    proof fn lemma_in_range(self) {
    }

    proof fn lemma_bounds_fit_i128() {
    }

    fn zero() -> (r: i128) {
        0
    }

    fn one() -> (r: i128) {
        1
    }

    fn min_value() -> (r: i128) {
        -0x8000_0000_0000_0000_0000_0000_0000_0000
    }

    fn max_value() -> (r: i128) {
        0x7fff_ffff_ffff_ffff_ffff_ffff_ffff_ffff
    }

    fn is_float() -> (r: bool) {
        false
    }

    fn less_eq(self, other: i128) -> (r: bool) {
        self <= other
    }

    fn less_than(self, other: i128) -> (r: bool) {
        self < other
    }

    fn add_exact(self, other: i128) -> (r: i128) {
        self + other
    }

    fn sub_exact(self, other: i128) -> (r: i128) {
        self - other
    }

    fn mul_exact(self, other: i128) -> (r: i128) {
        self * other
    }

    fn div_trunc(self, other: i128) -> (r: i128) {
        proof {
            lemma_trunc_div_in_range(self as int, other as int, -0x8000_0000_0000_0000_0000_0000_0000_0000, 0x7fff_ffff_ffff_ffff_ffff_ffff_ffff_ffff);
        }
        self / other
    }

    fn rem_trunc(self, other: i128) -> (r: i128) {
        proof {
            lemma_trunc_div_in_range(self as int, other as int, -0x8000_0000_0000_0000_0000_0000_0000_0000, 0x7fff_ffff_ffff_ffff_ffff_ffff_ffff_ffff);
        }
        self % other
    }

    fn add_assign_exact(&mut self, other: i128) {
        *self = *self + other;
    }

    fn sub_assign_exact(&mut self, other: i128) {
        *self = *self - other;
    }

    fn from_i128_checked(v: i128) -> (r: Option<i128>) {
        Option::Some(v)
    }

    fn to_i128(self) -> (r: i128) {
        self
    }
}

impl PolarsNumericType for Int128Type {
    type Native = i128;

    open spec fn spec_prim_kind() -> PrimitiveKind {
        PrimitiveKind::Int128
    }

    fn prim_kind() -> (r: PrimitiveKind) {
        PrimitiveKind::Int128
    }
}

impl PolarsIntegerType for UInt8Type {
    proof fn native_in_rolling_range(v: <UInt8Type as PolarsNumericType>::Native) {
    }
}

impl PolarsIntegerType for UInt16Type {
    proof fn native_in_rolling_range(v: <UInt16Type as PolarsNumericType>::Native) {
    }
}

impl PolarsIntegerType for UInt32Type {
    proof fn native_in_rolling_range(v: <UInt32Type as PolarsNumericType>::Native) {
    }
}

impl PolarsIntegerType for UInt64Type {
    proof fn native_in_rolling_range(v: <UInt64Type as PolarsNumericType>::Native) {
    }
}

impl PolarsIntegerType for Int8Type {
    proof fn native_in_rolling_range(v: <Int8Type as PolarsNumericType>::Native) {
    }
}

impl PolarsIntegerType for Int16Type {
    proof fn native_in_rolling_range(v: <Int16Type as PolarsNumericType>::Native) {
    }
}

impl PolarsIntegerType for Int32Type {
    proof fn native_in_rolling_range(v: <Int32Type as PolarsNumericType>::Native) {
    }
}

impl PolarsIntegerType for Int64Type {
    proof fn native_in_rolling_range(v: <Int64Type as PolarsNumericType>::Native) {
    }
}

} // verus!
