use column_core::chunked::ChunkedArray;
use column_core::datatypes::Int32Type;
use column_core::datatypes::Int64Type;
use column_core::dtype::DataType;
use column_core::rolling::ClosedWindow;
use column_core::rolling::PolarsError;
use column_core::rolling::QuantileInterpolOptions;
use column_core::rolling::QuantileProb;
use column_core::rolling::Rational;
use column_core::rolling::RollingOptions;
use column_core::series_ops::WrapInt;

fn opts(window_size: usize, min_periods: usize, center: bool) -> RollingOptions {
    RollingOptions {
        window_size,
        min_periods,
        weights: None,
        center,
        closed_window: None,
    }
}

fn int64_column(values: Vec<Option<i64>>) -> WrapInt<ChunkedArray<Int64Type>> {
    WrapInt(ChunkedArray::new(String::from("a"), values))
}

fn to_f64(r: &[Option<Rational>]) -> Vec<Option<f64>> {
    r.iter()
        .map(|o| o.map(|q| q.num as f64 / q.den as f64))
        .collect()
}

#[test]
fn rolling_mean_trailing_window_three() {
    let col = int64_column(vec![Some(1), Some(2), Some(3), Some(4), Some(5)]);
    let out = col.rolling_mean(&opts(3, 1, false)).unwrap();
    assert_eq!(
        to_f64(&out),
        vec![Some(1.0), Some(1.5), Some(2.0), Some(3.0), Some(4.0)]
    );
}

#[test]
fn rolling_sum_respects_min_periods_and_nulls() {
    let col = int64_column(vec![Some(1), None, Some(3), Some(4)]);
    let out = col.rolling_sum(&opts(2, 2, false)).unwrap();
    assert_eq!(out, vec![None, None, None, Some(7)]);
}

#[test]
fn rolling_max_centered_window_three() {
    let col = int64_column(vec![Some(1), Some(5), Some(2), Some(8), Some(3)]);
    let out = col.rolling_max(&opts(3, 1, true)).unwrap();
    assert_eq!(
        out,
        vec![Some(5), Some(5), Some(8), Some(8), Some(8)]
    );
}

#[test]
fn rolling_quantile_rejects_probability_above_one() {
    let col = int64_column(vec![Some(1), Some(2), Some(3)]);
    let r = col.rolling_quantile(
        QuantileProb { num: 3, den: 2 },
        QuantileInterpolOptions::Linear,
        &opts(2, 1, false),
    );
    assert_eq!(r, Err(PolarsError::InvalidQuantile));
}

#[test]
fn rolling_quantile_rejects_zero_denominator() {
    let col = int64_column(vec![Some(1)]);
    let r = col.rolling_quantile(
        QuantileProb { num: 0, den: 0 },
        QuantileInterpolOptions::Linear,
        &opts(1, 1, false),
    );
    assert_eq!(r, Err(PolarsError::InvalidQuantile));
}

#[test]
fn zero_window_size_is_rejected() {
    let col = int64_column(vec![Some(1), Some(2)]);
    let r = col.rolling_sum(&opts(0, 0, false));
    assert_eq!(r, Err(PolarsError::WindowSizeZero));
}

#[test]
fn min_periods_larger_than_window_is_rejected() {
    let col = int64_column(vec![Some(1), Some(2)]);
    let r = col.rolling_mean(&opts(2, 3, false));
    assert_eq!(r, Err(PolarsError::MinPeriodsLargerThanWindow));
}

#[test]
fn closed_window_is_rejected_for_positional_windows() {
    let col = int64_column(vec![Some(1), Some(2)]);
    let mut o = opts(2, 1, false);
    o.closed_window = Some(ClosedWindow::Both);
    let r = col.rolling_sum(&o);
    assert_eq!(r, Err(PolarsError::ClosedWindowNotSupported));
}

#[test]
fn weights_of_the_wrong_length_are_rejected() {
    let col = int64_column(vec![Some(1), Some(2)]);
    let mut o = opts(2, 1, false);
    o.weights = Some(vec![1, 2, 3]);
    let r = col.rolling_sum(&o);
    assert_eq!(r, Err(PolarsError::WeightsLengthMismatch));
}

#[test]
fn weighted_aggregation_is_rejected() {
    let col = int64_column(vec![Some(1), Some(2)]);
    let mut o = opts(2, 1, false);
    o.weights = Some(vec![1, 2]);
    let r = col.rolling_sum(&o);
    assert_eq!(r, Err(PolarsError::WeightsNotSupported));
}

#[test]
fn rolling_min_trailing() {
    let col = int64_column(vec![Some(4), Some(2), Some(9), None, Some(1)]);
    let out = col.rolling_min(&opts(2, 1, false)).unwrap();
    assert_eq!(out, vec![Some(4), Some(2), Some(2), Some(9), Some(1)]);
}

#[test]
fn rolling_median_odd_and_even_windows() {
    let col = int64_column(vec![Some(3), Some(1), Some(4), Some(1), Some(5)]);
    let out = col.rolling_median(&opts(3, 1, false)).unwrap();
    assert_eq!(
        to_f64(&out),
        vec![Some(3.0), Some(2.0), Some(3.0), Some(1.0), Some(4.0)]
    );
    let even = col.rolling_median(&opts(2, 2, false)).unwrap();
    assert_eq!(
        to_f64(&even),
        vec![None, Some(2.0), Some(2.5), Some(2.5), Some(3.0)]
    );
}

#[test]
fn rolling_quantile_interpolations() {
    let col = int64_column(vec![Some(1), Some(2), Some(3), Some(4)]);
    let half = QuantileProb { num: 1, den: 2 };
    let lower = col
        .rolling_quantile(half, QuantileInterpolOptions::Lower, &opts(4, 4, false))
        .unwrap();
    assert_eq!(lower[3], Some(Rational { num: 2, den: 1 }));
    let higher = col
        .rolling_quantile(half, QuantileInterpolOptions::Higher, &opts(4, 4, false))
        .unwrap();
    assert_eq!(higher[3], Some(Rational { num: 3, den: 1 }));
    let midpoint = col
        .rolling_quantile(half, QuantileInterpolOptions::Midpoint, &opts(4, 4, false))
        .unwrap();
    assert_eq!(midpoint[3], Some(Rational { num: 5, den: 2 }));
    let linear = col
        .rolling_quantile(half, QuantileInterpolOptions::Linear, &opts(4, 4, false))
        .unwrap();
    assert_eq!(to_f64(&linear)[3], Some(2.5));
}

#[test]
fn rolling_var_matches_the_sample_variance() {
    let col = int64_column(vec![Some(1), Some(2), Some(3), Some(4)]);
    let out = col.rolling_var(&opts(3, 1, false)).unwrap();
    // A single observation has no sample variance.
    assert_eq!(out[0], None);
    assert_eq!(to_f64(&out)[1], Some(0.5));
    assert_eq!(to_f64(&out)[2], Some(1.0));
    assert_eq!(to_f64(&out)[3], Some(1.0));
}

#[test]
fn all_null_windows_emit_null() {
    let col = int64_column(vec![None, None, None]);
    let out = col.rolling_sum(&opts(2, 1, false)).unwrap();
    assert_eq!(out, vec![None, None, None]);
}

#[test]
fn min_periods_zero_still_needs_one_value() {
    let col = int64_column(vec![None, Some(2)]);
    let out = col.rolling_sum(&opts(1, 0, false)).unwrap();
    assert_eq!(out, vec![None, Some(2)]);
}

#[test]
fn empty_column_rolls_to_empty() {
    let col = int64_column(vec![]);
    let out = col.rolling_sum(&opts(3, 1, false)).unwrap();
    assert!(out.is_empty());
}

#[test]
fn centered_even_window_puts_the_extra_element_on_the_right() {
    let col = int64_column(vec![Some(1), Some(2), Some(3), Some(4)]);
    // Window 2 centered at i covers positions i and i + 1.
    let out = col.rolling_sum(&opts(2, 1, true)).unwrap();
    assert_eq!(out, vec![Some(3), Some(5), Some(7), Some(4)]);
}

#[test]
fn ops_time_dtype_reports_the_column_type() {
    let col32 = WrapInt(ChunkedArray::<Int32Type>::new(
        String::from("x"),
        vec![Some(1i32), None],
    ));
    assert_eq!(col32.ops_time_dtype(), &DataType::Int32);
    let col64 = int64_column(vec![Some(1)]);
    assert_eq!(col64.ops_time_dtype(), &DataType::Int64);
}

#[test]
fn rolling_sum_is_exact_on_wide_values() {
    let col = int64_column(vec![Some(i64::MAX), Some(i64::MAX)]);
    let out = col.rolling_sum(&opts(2, 1, false)).unwrap();
    assert_eq!(out[1], Some(i64::MAX as i128 * 2));
}

#[test]
fn extreme_quantiles_agree_with_min_and_max() {
    let col = int64_column(vec![Some(9), Some(2), Some(7), None, Some(4)]);
    let o = opts(3, 1, false);
    let mins = col.rolling_min(&o).unwrap();
    let maxs = col.rolling_max(&o).unwrap();
    let q0 = col
        .rolling_quantile(
            QuantileProb { num: 0, den: 1 },
            QuantileInterpolOptions::Linear,
            &o,
        )
        .unwrap();
    let q1 = col
        .rolling_quantile(
            QuantileProb { num: 1, den: 1 },
            QuantileInterpolOptions::Linear,
            &o,
        )
        .unwrap();
    for i in 0..5 {
        assert_eq!(
            q0[i].map(|r| r.num / r.den as i128),
            mins[i].map(|v| v as i128)
        );
        assert_eq!(
            q1[i].map(|r| r.num / r.den as i128),
            maxs[i].map(|v| v as i128)
        );
    }
}
