//! Time-series operations over integer-marked columns: the rolling
//! aggregation surface, uniform over every marker whose native scalar is an
//! integer width.
//!
//! Each operation takes the column and a window description, validates the
//! description before any windowing work, and returns a new column of equal
//! length. Results are exact: sums, minima and maxima as 128-bit integers,
//! fractional aggregates as rationals. The standard deviation alone is
//! missing here: it is the square root of the variance, a floating-point
//! step that lies outside this crate and is applied by the caller to
//! `rolling_var`'s exact output.

use vstd::prelude::*;

use crate::chunked::ChunkedArray;
use crate::dtype::DataType;
use crate::numeric::NumericNative;
use crate::numeric::PolarsIntegerType;
use crate::rolling::PolarsError;
use crate::rolling::PolarsResult;
use crate::rolling::QuantileInterpolOptions;
use crate::rolling::QuantileProb;
use crate::rolling::Rational;
use crate::rolling::RollingOptions;
use crate::rolling::in_rolling_range;
use crate::rolling::in_var_range;
use crate::rolling::lemma_seq_max_ensures;
use crate::rolling::lemma_seq_min_ensures;
use crate::rolling::lemma_window_vals_bounded;
use crate::rolling::seq_max;
use crate::rolling::seq_min;
use crate::rolling::window_hi;
use crate::rolling::window_lo;
use crate::rolling::window_vals;
use crate::rolling::rolling_max;
use crate::rolling::rolling_max_at;
use crate::rolling::rolling_mean;
use crate::rolling::rolling_mean_at;
use crate::rolling::rolling_median;
use crate::rolling::rolling_min;
use crate::rolling::rolling_min_at;
use crate::rolling::rolling_quantile;
use crate::rolling::rolling_quantile_emits;
use crate::rolling::rolling_sum;
use crate::rolling::rolling_sum_at;
use crate::rolling::rolling_var;
use crate::rolling::rolling_var_at;
use crate::rolling::valid_quantile_prob;
use crate::rolling::validate_options_spec;

verus! {

/// Marks a column for the integer implementation of the time-series
/// operations.
pub struct WrapInt<T>(pub T);

/// A column's values as optional 128-bit integers, null for null.
pub open spec fn as_i128_seq<N: NumericNative>(s: Seq<Option<N>>) -> Seq<Option<i128>> {
    s.map_values(
        |o: Option<N>|
            match o {
                Option::Some(v) => Option::Some((v.as_int() as i128)),
                Option::None => Option::<i128>::None,
            },
    )
}

/// Every non-null value lies in the signed 32-bit span whose variance the
/// kernels accumulate exactly.
pub open spec fn natives_in_var_range<N: NumericNative>(s: Seq<Option<N>>) -> bool {
    forall|j: int|
        0 <= j < s.len() ==> (#[trigger] s[j] matches Option::Some(v) ==> -0x8000_0000 <= v.as_int()
            <= 0x7fff_ffff)
}

/// Widen a column's values to optional 128-bit integers.
fn to_i128_column<T: PolarsIntegerType>(values: &Vec<Option<T::Native>>) -> (r: Vec<
    Option<i128>,
>) where T::Native: NumericNative
    ensures
        r@ == as_i128_seq(values@),
        in_rolling_range(r@),
        natives_in_var_range(values@) ==> in_var_range(r@),
{
    let ghost s = values@;
    let mut out: Vec<Option<i128>> = Vec::new();
    let mut j: usize = 0;
    while j < values.len()
        invariant
            j <= s.len(),
            s == values@,
            out@.len() == j,
            forall|k: int|
                0 <= k < j ==> out@[k] == (match s[k] {
                    Option::Some(v) => Option::Some((v.as_int() as i128)),
                    Option::None => Option::<i128>::None,
                }),
            forall|k: int|
                0 <= k < j ==> (#[trigger] out@[k] matches Option::Some(v)
                    ==> -0x8000_0000_0000_0000 <= v <= 0xffff_ffff_ffff_ffff),
            natives_in_var_range(s) ==> forall|k: int|
                0 <= k < j ==> (#[trigger] out@[k] matches Option::Some(v) ==> -0x8000_0000 <= v
                    <= 0x7fff_ffff),
        decreases s.len() - j,
    {
        match &values[j] {
            Option::Some(v) => {
                proof {
                    T::native_in_rolling_range(*v);
                    v.lemma_in_range();
                }
                out.push(Option::Some(v.to_i128()));
            },
            Option::None => {
                out.push(Option::None);
            },
        }
        j = j + 1;
    }
    proof {
        assert(out@ =~= as_i128_seq(s));
    }
    out
}

impl<T: PolarsIntegerType> WrapInt<ChunkedArray<T>> where T::Native: NumericNative {
    /// The logical type the time-series operations see on this column.
    pub fn ops_time_dtype(&self) -> (r: &DataType)
        ensures
            *r == self.0.spec_field_dtype(),
    {
        self.0.dtype()
    }

    /// Apply a rolling sum to the column: at each position the exact sum
    /// of the non-null window values, or null when fewer than the minimum
    /// fall in the window.
    pub fn rolling_sum(&self, options: &RollingOptions) -> (r: PolarsResult<Vec<Option<i128>>>)
        requires
            self.0.spec_values().len() <= 0x7fff_ffff_ffff_ffff,
        ensures
            (r is Ok) == (validate_options_spec(*options) is None),
            r matches Result::Err(e) ==> validate_options_spec(*options) == Option::Some(e),
            r matches Result::Ok(out) ==> out@.len() == self.0.spec_values().len() && forall|
                i: int,
            |
                0 <= i < out@.len() ==> out@[i] == rolling_sum_at(
                    as_i128_seq(self.0.spec_values()),
                    i,
                    options.window_size as int,
                    options.min_periods as int,
                    options.center,
                ),
    {
        let vals = to_i128_column::<T>(self.0.values());
        rolling_sum(&vals, options)
    }

    /// Apply a rolling mean to the column: at each position the exact
    /// ratio of the window's sum to its non-null count, or null when fewer
    /// than the minimum fall in the window.
    pub fn rolling_mean(&self, options: &RollingOptions) -> (r: PolarsResult<
        Vec<Option<Rational>>,
    >)
        requires
            self.0.spec_values().len() <= 0x7fff_ffff_ffff_ffff,
        ensures
            (r is Ok) == (validate_options_spec(*options) is None),
            r matches Result::Err(e) ==> validate_options_spec(*options) == Option::Some(e),
            r matches Result::Ok(out) ==> out@.len() == self.0.spec_values().len() && forall|
                i: int,
            |
                0 <= i < out@.len() ==> out@[i] == rolling_mean_at(
                    as_i128_seq(self.0.spec_values()),
                    i,
                    options.window_size as int,
                    options.min_periods as int,
                    options.center,
                ),
    {
        let vals = to_i128_column::<T>(self.0.values());
        rolling_mean(&vals, options)
    }

    /// Apply a rolling minimum to the column: at each position the
    /// smallest non-null window value, in the column's own native type, or
    /// null when fewer than the minimum count fall in the window.
    pub fn rolling_min(&self, options: &RollingOptions) -> (r: PolarsResult<
        Vec<Option<T::Native>>,
    >)
        ensures
            (r is Ok) == (validate_options_spec(*options) is None),
            r matches Result::Err(e) ==> validate_options_spec(*options) == Option::Some(e),
            r matches Result::Ok(out) ==> out@.len() == self.0.spec_values().len() && forall|
                i: int,
            |
                0 <= i < out@.len() ==> (match #[trigger] out@[i] {
                    Option::Some(x) => rolling_min_at(
                        as_i128_seq(self.0.spec_values()),
                        i,
                        options.window_size as int,
                        options.min_periods as int,
                        options.center,
                    ) == Option::Some((x.as_int() as i128)),
                    Option::None => rolling_min_at(
                        as_i128_seq(self.0.spec_values()),
                        i,
                        options.window_size as int,
                        options.min_periods as int,
                        options.center,
                    ) is None,
                }),
    {
        let vals = to_i128_column::<T>(self.0.values());
        let ghost s = vals@;
        match rolling_min(&vals, options) {
            Result::Err(e) => Result::Err(e),
            Result::Ok(raw) => {
                let mut out: Vec<Option<T::Native>> = Vec::new();
                let mut k: usize = 0;
                while k < raw.len()
                    invariant
                        k <= raw@.len(),
                        s == vals@,
                        s == as_i128_seq(self.0.spec_values()),
                        raw@.len() == s.len(),
                        forall|i: int|
                            0 <= i < raw@.len() ==> raw@[i] == rolling_min_at(
                                s,
                                i,
                                options.window_size as int,
                                options.min_periods as int,
                                options.center,
                            ),
                        out@.len() == k,
                        forall|j: int|
                            0 <= j < k ==> (match #[trigger] out@[j] {
                                Option::Some(x) => raw@[j] == Option::Some((x.as_int() as i128)),
                                Option::None => raw@[j] is None,
                            }),
                    decreases raw@.len() - k,
                {
                    match raw[k] {
                        Option::Some(m) => {
                            proof {
                                let w = options.window_size as int;
                                let c = options.center;
                                let lo = window_lo(k as int, w, c);
                                let hi = window_hi(k as int, s.len() as int, w, c);
                                let wv = window_vals(s, lo, hi);
                                assert(m == seq_min(wv) && wv.len() >= 1);
                                lemma_seq_min_ensures(wv);
                                assert forall|j: int|
                                    0 <= j < s.len() implies (#[trigger] s[j] matches
                                Option::Some(v) ==> T::Native::min_int() <= v
                                    <= T::Native::max_int()) by {
                                    if self.0.spec_values()[j] is Some {
                                        self.0.spec_values()[j]->0.lemma_in_range();
                                        T::Native::lemma_bounds_fit_i128();
                                    }
                                }
                                lemma_window_vals_bounded(
                                    s,
                                    lo,
                                    hi,
                                    T::Native::min_int(),
                                    T::Native::max_int(),
                                );
                                assert(wv.contains(m));
                            }
                            let conv = T::Native::from_i128_checked(m);
                            proof {
                                assert(conv is Some);
                            }
                            match conv {
                                Option::Some(x) => out.push(Option::Some(x)),
                                Option::None => out.push(Option::None),
                            }
                        },
                        Option::None => {
                            out.push(Option::None);
                        },
                    }
                    k = k + 1;
                }
                Result::Ok(out)
            },
        }
    }

    /// Apply a rolling maximum to the column: at each position the
    /// largest non-null window value, in the column's own native type, or
    /// null when fewer than the minimum count fall in the window.
    pub fn rolling_max(&self, options: &RollingOptions) -> (r: PolarsResult<
        Vec<Option<T::Native>>,
    >)
        ensures
            (r is Ok) == (validate_options_spec(*options) is None),
            r matches Result::Err(e) ==> validate_options_spec(*options) == Option::Some(e),
            r matches Result::Ok(out) ==> out@.len() == self.0.spec_values().len() && forall|
                i: int,
            |
                0 <= i < out@.len() ==> (match #[trigger] out@[i] {
                    Option::Some(x) => rolling_max_at(
                        as_i128_seq(self.0.spec_values()),
                        i,
                        options.window_size as int,
                        options.min_periods as int,
                        options.center,
                    ) == Option::Some((x.as_int() as i128)),
                    Option::None => rolling_max_at(
                        as_i128_seq(self.0.spec_values()),
                        i,
                        options.window_size as int,
                        options.min_periods as int,
                        options.center,
                    ) is None,
                }),
    {
        let vals = to_i128_column::<T>(self.0.values());
        let ghost s = vals@;
        match rolling_max(&vals, options) {
            Result::Err(e) => Result::Err(e),
            Result::Ok(raw) => {
                let mut out: Vec<Option<T::Native>> = Vec::new();
                let mut k: usize = 0;
                while k < raw.len()
                    invariant
                        k <= raw@.len(),
                        s == vals@,
                        s == as_i128_seq(self.0.spec_values()),
                        raw@.len() == s.len(),
                        forall|i: int|
                            0 <= i < raw@.len() ==> raw@[i] == rolling_max_at(
                                s,
                                i,
                                options.window_size as int,
                                options.min_periods as int,
                                options.center,
                            ),
                        out@.len() == k,
                        forall|j: int|
                            0 <= j < k ==> (match #[trigger] out@[j] {
                                Option::Some(x) => raw@[j] == Option::Some((x.as_int() as i128)),
                                Option::None => raw@[j] is None,
                            }),
                    decreases raw@.len() - k,
                {
                    match raw[k] {
                        Option::Some(m) => {
                            proof {
                                let w = options.window_size as int;
                                let c = options.center;
                                let lo = window_lo(k as int, w, c);
                                let hi = window_hi(k as int, s.len() as int, w, c);
                                let wv = window_vals(s, lo, hi);
                                assert(m == seq_max(wv) && wv.len() >= 1);
                                lemma_seq_max_ensures(wv);
                                assert forall|j: int|
                                    0 <= j < s.len() implies (#[trigger] s[j] matches
                                Option::Some(v) ==> T::Native::min_int() <= v
                                    <= T::Native::max_int()) by {
                                    if self.0.spec_values()[j] is Some {
                                        self.0.spec_values()[j]->0.lemma_in_range();
                                        T::Native::lemma_bounds_fit_i128();
                                    }
                                }
                                lemma_window_vals_bounded(
                                    s,
                                    lo,
                                    hi,
                                    T::Native::min_int(),
                                    T::Native::max_int(),
                                );
                                assert(wv.contains(m));
                            }
                            let conv = T::Native::from_i128_checked(m);
                            proof {
                                assert(conv is Some);
                            }
                            match conv {
                                Option::Some(x) => out.push(Option::Some(x)),
                                Option::None => out.push(Option::None),
                            }
                        },
                        Option::None => {
                            out.push(Option::None);
                        },
                    }
                    k = k + 1;
                }
                Result::Ok(out)
            },
        }
    }

    /// Apply a rolling median to the column: the quantile at probability
    /// one half, linearly interpolated.
    pub fn rolling_median(&self, options: &RollingOptions) -> (r: PolarsResult<
        Vec<Option<Rational>>,
    >)
        requires
            self.0.spec_values().len() <= 0x7fff_ffff_ffff_ffff,
        ensures
            (r is Ok) == (validate_options_spec(*options) is None),
            r matches Result::Err(e) ==> validate_options_spec(*options) == Option::Some(e),
            r matches Result::Ok(out) ==> out@.len() == self.0.spec_values().len() && forall|
                i: int,
            |
                0 <= i < out@.len() ==> rolling_quantile_emits(
                    as_i128_seq(self.0.spec_values()),
                    i,
                    options.window_size as int,
                    options.min_periods as int,
                    options.center,
                    1,
                    2,
                    QuantileInterpolOptions::Linear,
                    out@[i],
                ),
    {
        let vals = to_i128_column::<T>(self.0.values());
        rolling_median(&vals, options)
    }

    /// Apply a rolling quantile to the column at the given probability and
    /// interpolation. An invalid probability fails validation before any
    /// windowing work.
    pub fn rolling_quantile(
        &self,
        prob: QuantileProb,
        interpol: QuantileInterpolOptions,
        options: &RollingOptions,
    ) -> (r: PolarsResult<Vec<Option<Rational>>>)
        requires
            self.0.spec_values().len() <= 0x7fff_ffff_ffff_ffff,
        ensures
            !valid_quantile_prob(prob.num as int, prob.den as int) ==> r == PolarsResult::<
                Vec<Option<Rational>>,
            >::Err(PolarsError::InvalidQuantile),
            valid_quantile_prob(prob.num as int, prob.den as int) ==> ((r is Ok) == (
            validate_options_spec(*options) is None) && (r matches Result::Err(e)
                ==> validate_options_spec(*options) == Option::Some(e))),
            r matches Result::Ok(out) ==> out@.len() == self.0.spec_values().len() && forall|
                i: int,
            |
                0 <= i < out@.len() ==> rolling_quantile_emits(
                    as_i128_seq(self.0.spec_values()),
                    i,
                    options.window_size as int,
                    options.min_periods as int,
                    options.center,
                    prob.num as int,
                    prob.den as int,
                    interpol,
                    out@[i],
                ),
    {
        let vals = to_i128_column::<T>(self.0.values());
        rolling_quantile(&vals, prob, interpol, options)
    }

    /// Apply a rolling sample variance to the column, with one delta
    /// degree of freedom: at each position the exact variance ratio of the
    /// non-null window values, or null when fewer than the minimum count,
    /// or fewer than two values, fall in the window.
    pub fn rolling_var(&self, options: &RollingOptions) -> (r: PolarsResult<
        Vec<Option<Rational>>,
    >)
        requires
            self.0.spec_values().len() <= 0xffff_ffff,
            natives_in_var_range(self.0.spec_values()),
        ensures
            (r is Ok) == (validate_options_spec(*options) is None),
            r matches Result::Err(e) ==> validate_options_spec(*options) == Option::Some(e),
            r matches Result::Ok(out) ==> out@.len() == self.0.spec_values().len() && forall|
                i: int,
            |
                0 <= i < out@.len() ==> out@[i] == rolling_var_at(
                    as_i128_seq(self.0.spec_values()),
                    i,
                    options.window_size as int,
                    options.min_periods as int,
                    options.center,
                ),
    {
        let vals = to_i128_column::<T>(self.0.values());
        rolling_var(&vals, options)
    }
}

} // verus!
