//! Rolling aggregation: windowed aggregates over a sequence of optional
//! values.
//!
//! A window of size `w`, trailing or centered at position `i` and clamped
//! to the sequence, aggregates the non-null values inside it; the output at
//! `i` is null when fewer non-null values fall in the window than the
//! configured minimum, and otherwise the aggregate over exactly those
//! values. Nulls never contribute to an aggregate and never count toward
//! the minimum. Caller-supplied parameters outside their valid domain are
//! rejected before any windowing work begins.
//!
//! Values enter the kernels as optional 128-bit integers, wide enough for
//! every integer native; fractional aggregates (mean, quantiles, variance)
//! come back as exact rationals.

use vstd::prelude::*;
use vstd::assert_multisets_equal;
use vstd::seq_lib::lemma_multiset_commutative;

verus! {

broadcast use vstd::seq_lib::group_to_multiset_ensures;

/// A validation failure raised before any windowing computation starts.
#[derive(Clone, Copy, PartialEq, Eq, Structural, Debug)]
pub enum PolarsError {
    /// The window length must be positive.
    WindowSizeZero,
    /// The minimum-period count must not exceed the window length.
    MinPeriodsLargerThanWindow,
    /// A boundary-inclusivity policy applies only to windows bounded by a
    /// temporal column, which an external layer drives; plain positional
    /// windows reject it.
    ClosedWindowNotSupported,
    /// Per-position weights must be as many as the window is long.
    WeightsLengthMismatch,
    /// Weighted aggregation takes the floating-point path, which lies
    /// outside this crate.
    WeightsNotSupported,
    /// A quantile probability must lie in the unit interval.
    InvalidQuantile,
}

/// The result of an operation that validates its parameters first.
pub type PolarsResult<T> = Result<T, PolarsError>;

/// Which boundary of a temporal window is inclusive.
#[derive(Clone, Copy, PartialEq, Eq, Structural, Debug)]
pub enum ClosedWindow {
    Left,
    Right,
    Both,
    Neither,
}

/// An immutable description of one rolling-window computation: window
/// length, minimum count of non-null values required to emit a result,
/// optional per-position weights, window placement, and boundary
/// inclusivity. Constructed per call site and consumed immediately.
pub struct RollingOptions {
    /// The window length, in positions.
    pub window_size: usize,
    /// The minimum count of non-null values a window must contain for its
    /// aggregate to be non-null. A zero acts as one: an aggregate needs at
    /// least one value.
    pub min_periods: usize,
    /// Optional per-position weights. Weighted aggregation takes the
    /// floating-point path outside this crate, so the kernels here reject
    /// a weighted request after validating its shape.
    pub weights: Option<Vec<i64>>,
    /// Whether the window is centered at each position rather than
    /// trailing; with an even length, the extra element falls on the
    /// right.
    pub center: bool,
    /// Boundary inclusivity, for windows bounded by a temporal column;
    /// plain positional windows reject it.
    pub closed_window: Option<ClosedWindow>,
}

/// The validation outcome for a window description: the error a rolling
/// kernel reports, if any, checked in this order.
pub open spec fn validate_options_spec(o: RollingOptions) -> Option<PolarsError> {
    if o.window_size == 0 {
        Option::Some(PolarsError::WindowSizeZero)
    } else if o.min_periods > o.window_size {
        Option::Some(PolarsError::MinPeriodsLargerThanWindow)
    } else if o.closed_window is Some {
        Option::Some(PolarsError::ClosedWindowNotSupported)
    } else if o.weights matches Option::Some(w) && w@.len() != o.window_size {
        Option::Some(PolarsError::WeightsLengthMismatch)
    } else if o.weights is Some {
        Option::Some(PolarsError::WeightsNotSupported)
    } else {
        Option::None
    }
}

/// Validate a window description, reporting the first failure.
pub fn validate_options(o: &RollingOptions) -> (r: Option<PolarsError>)
    ensures
        r == validate_options_spec(*o),
{
    if o.window_size == 0 {
        Option::Some(PolarsError::WindowSizeZero)
    } else if o.min_periods > o.window_size {
        Option::Some(PolarsError::MinPeriodsLargerThanWindow)
    } else if o.closed_window.is_some() {
        Option::Some(PolarsError::ClosedWindowNotSupported)
    } else {
        match &o.weights {
            Option::Some(w) => {
                if w.len() != o.window_size {
                    Option::Some(PolarsError::WeightsLengthMismatch)
                } else {
                    Option::Some(PolarsError::WeightsNotSupported)
                }
            },
            Option::None => Option::None,
        }
    }
}

/// The first position inside the window at `i`, clamped to the sequence.
/// A trailing window reaches back over the preceding `w - 1` positions; a
/// centered window reaches back over `w - 1 - w / 2` of them.
pub open spec fn window_lo(i: int, w: int, center: bool) -> int {
    let raw = if center {
        i - (w - 1 - w / 2)
    } else {
        i - (w - 1)
    };
    if raw < 0 {
        0
    } else {
        raw
    }
}

/// One past the last position inside the window at `i`, clamped to the
/// sequence. A trailing window ends at `i`; a centered window reaches
/// `w / 2` positions further, so with an even length the extra element
/// falls on the right.
pub open spec fn window_hi(i: int, len: int, w: int, center: bool) -> int {
    let raw = if center {
        i + w / 2 + 1
    } else {
        i + 1
    };
    if raw > len {
        len
    } else {
        raw
    }
}

/// The non-null values of `s` between `lo` (inclusive) and `hi`
/// (exclusive), in order.
pub open spec fn window_vals(s: Seq<Option<i128>>, lo: int, hi: int) -> Seq<i128>
    decreases hi - lo,
{
    if lo >= hi {
        Seq::empty()
    } else {
        match s[hi - 1] {
            Option::Some(v) => window_vals(s, lo, hi - 1).push(v),
            Option::None => window_vals(s, lo, hi - 1),
        }
    }
}

/// The non-null values inside the window at position `i`.
pub open spec fn window_vals_at(s: Seq<Option<i128>>, i: int, w: int, center: bool) -> Seq<
    i128,
> {
    window_vals(s, window_lo(i, w, center), window_hi(i, s.len() as int, w, center))
}

/// The sum of a sequence of values.
pub open spec fn seq_sum(s: Seq<i128>) -> int
    decreases s.len(),
{
    if s.len() == 0 {
        0
    } else {
        seq_sum(s.drop_last()) + s.last()
    }
}

/// The sum of the squares of a sequence of values.
pub open spec fn seq_sum_sq(s: Seq<i128>) -> int
    decreases s.len(),
{
    if s.len() == 0 {
        0
    } else {
        seq_sum_sq(s.drop_last()) + s.last() * s.last()
    }
}

/// The minimum non-null count below which a window's aggregate is null: at
/// least one value is always needed.
pub open spec fn effective_min_periods(mp: int) -> int {
    if mp < 1 {
        1
    } else {
        mp
    }
}

/// Every non-null element lies in the span the rolling kernels accumulate
/// exactly: from the smallest signed 64-bit value to the largest unsigned
/// 64-bit value.
pub open spec fn in_rolling_range(s: Seq<Option<i128>>) -> bool {
    forall|j: int|
        0 <= j < s.len() ==> (#[trigger] s[j] matches Option::Some(v) ==> -0x8000_0000_0000_0000
            <= v <= 0xffff_ffff_ffff_ffff)
}

/// What the rolling sum emits at position `i`: the sum of the non-null
/// window values, or null when too few fall in the window.
pub open spec fn rolling_sum_at(s: Seq<Option<i128>>, i: int, w: int, mp: int, center: bool) -> Option<
    i128,
> {
    let vals = window_vals_at(s, i, w, center);
    if vals.len() >= effective_min_periods(mp) {
        Option::Some(seq_sum(vals) as i128)
    } else {
        Option::None
    }
}

/// An exact ratio of integers; the denominator is always positive.
#[derive(Clone, Copy, PartialEq, Eq, Structural, Debug)]
pub struct Rational {
    /// The numerator.
    pub num: i128,
    /// The denominator; always positive.
    pub den: u64,
}

/// What the rolling mean emits at position `i`: the exact ratio of the
/// window's sum to its non-null count, or null when too few values fall in
/// the window.
pub open spec fn rolling_mean_at(s: Seq<Option<i128>>, i: int, w: int, mp: int, center: bool) -> Option<
    Rational,
> {
    let vals = window_vals_at(s, i, w, center);
    if vals.len() >= effective_min_periods(mp) {
        Option::Some(
            (Rational { num: seq_sum(vals) as i128, den: vals.len() as u64 }),
        )
    } else {
        Option::None
    }
}

/// A window sum stays between the element bounds scaled by the element
/// count.
proof fn lemma_sum_step(total: int, v: int, count: int, n: int)
    requires
        -0x8000_0000_0000_0000 * count <= total <= 0xffff_ffff_ffff_ffff * count,
        -0x8000_0000_0000_0000 <= v <= 0xffff_ffff_ffff_ffff,
        0 <= count < n,
        n <= 0x7fff_ffff_ffff_ffff,
    ensures
        -0x8000_0000_0000_0000 * (count + 1) <= total + v <= 0xffff_ffff_ffff_ffff * (count + 1),
        -0x8000_0000_0000_0000_0000_0000_0000_0000 <= total + v
            <= 0x7fff_ffff_ffff_ffff_ffff_ffff_ffff_ffff,
{
    assert(-0x8000_0000_0000_0000 * (count + 1) <= total + v <= 0xffff_ffff_ffff_ffff * (count
        + 1)) by (nonlinear_arith)
        requires
            -0x8000_0000_0000_0000 * count <= total <= 0xffff_ffff_ffff_ffff * count,
            -0x8000_0000_0000_0000 <= v <= 0xffff_ffff_ffff_ffff,
    ;
    assert(-0x8000_0000_0000_0000_0000_0000_0000_0000 <= total + v
        <= 0x7fff_ffff_ffff_ffff_ffff_ffff_ffff_ffff) by (nonlinear_arith)
        requires
            -0x8000_0000_0000_0000 * (count + 1) <= total + v <= 0xffff_ffff_ffff_ffff * (count
                + 1),
            0 <= count < n,
            n <= 0x7fff_ffff_ffff_ffff,
    ;
}

/// Count the non-null values in `s[lo..hi]` and sum them.
fn sum_window(values: &Vec<Option<i128>>, lo: usize, hi: usize) -> (r: (usize, i128))
    requires
        lo <= hi <= values@.len(),
        values@.len() <= 0x7fff_ffff_ffff_ffff,
        in_rolling_range(values@),
    ensures
        r.0 == window_vals(values@, lo as int, hi as int).len(),
        r.1 as int == seq_sum(window_vals(values@, lo as int, hi as int)),
{
    let ghost s = values@;
    let mut count: usize = 0;
    let mut total: i128 = 0;
    let mut j: usize = lo;
    while j < hi
        invariant
            lo <= j <= hi <= s.len(),
            s == values@,
            s.len() <= 0x7fff_ffff_ffff_ffff,
            in_rolling_range(s),
            count == window_vals(s, lo as int, j as int).len(),
            total as int == seq_sum(window_vals(s, lo as int, j as int)),
            count <= j - lo,
            -0x8000_0000_0000_0000 * (count as int) <= total as int <= 0xffff_ffff_ffff_ffff * (
            count as int),
        decreases hi - j,
    {
        match values[j] {
            Option::Some(v) => {
                proof {
                    let wv = window_vals(s, lo as int, j as int);
                    assert(window_vals(s, lo as int, j as int + 1) == wv.push(s[j as int]->0));
                    assert(wv.push(s[j as int]->0).drop_last() == wv);
                    lemma_sum_step(total as int, v as int, count as int, s.len() as int);
                }
                total = total + v;
                count = count + 1;
            },
            Option::None => {
                proof {
                    assert(window_vals(s, lo as int, j as int + 1) == window_vals(
                        s,
                        lo as int,
                        j as int,
                    ));
                }
            },
        }
        j = j + 1;
    }
    (count, total)
}

/// The two clamped window edges at position `i`.
fn window_bounds(i: usize, len: usize, w: usize, center: bool) -> (r: (usize, usize))
    requires
        i < len,
        w >= 1,
    ensures
        r.0 == window_lo(i as int, w as int, center),
        r.1 == window_hi(i as int, len as int, w as int, center),
        r.0 <= i < r.1 <= len,
{
    let lo: usize = if center {
        let back = w - 1 - w / 2;
        if i >= back {
            i - back
        } else {
            0
        }
    } else {
        if i + 1 >= w {
            i + 1 - w
        } else {
            0
        }
    };
    let hi: usize = if center {
        let fwd = w / 2;
        if fwd >= len - i {
            len
        } else {
            i + fwd + 1
        }
    } else {
        i + 1
    };
    (lo, hi)
}

/// Apply a rolling sum: at each position the exact sum of the non-null
/// window values, or null when fewer than the minimum fall in the window.
pub fn rolling_sum(values: &Vec<Option<i128>>, options: &RollingOptions) -> (r: PolarsResult<
    Vec<Option<i128>>,
>)
    requires
        values@.len() <= 0x7fff_ffff_ffff_ffff,
        in_rolling_range(values@),
    ensures
        (r is Ok) == (validate_options_spec(*options) is None),
        r matches Result::Err(e) ==> validate_options_spec(*options) == Option::Some(e),
        r matches Result::Ok(out) ==> out@.len() == values@.len() && forall|i: int|
            0 <= i < values@.len() ==> out@[i] == rolling_sum_at(
                values@,
                i,
                options.window_size as int,
                options.min_periods as int,
                options.center,
            ),
{
    if let Option::Some(e) = validate_options(options) {
        return Result::Err(e);
    }
    let ghost s = values@;
    let w = options.window_size;
    let mp = if options.min_periods == 0 {
        1
    } else {
        options.min_periods
    };
    let len = values.len();
    let mut out: Vec<Option<i128>> = Vec::new();
    let mut i: usize = 0;
    while i < len
        invariant
            i <= len,
            len == s.len(),
            s == values@,
            s.len() <= 0x7fff_ffff_ffff_ffff,
            in_rolling_range(s),
            w == options.window_size,
            w >= 1,
            mp as int == effective_min_periods(options.min_periods as int),
            out@.len() == i,
            forall|k: int|
                0 <= k < i ==> out@[k] == rolling_sum_at(
                    s,
                    k,
                    options.window_size as int,
                    options.min_periods as int,
                    options.center,
                ),
        decreases len - i,
    {
        let (lo, hi) = window_bounds(i, len, w, options.center);
        let (count, total) = sum_window(values, lo, hi);
        if count >= mp {
            out.push(Option::Some(total));
        } else {
            out.push(Option::None);
        }
        i = i + 1;
    }
    Result::Ok(out)
}

/// Apply a rolling mean: at each position the exact ratio of the window's
/// sum to its non-null count, or null when fewer than the minimum fall in
/// the window.
pub fn rolling_mean(values: &Vec<Option<i128>>, options: &RollingOptions) -> (r: PolarsResult<
    Vec<Option<Rational>>,
>)
    requires
        values@.len() <= 0x7fff_ffff_ffff_ffff,
        in_rolling_range(values@),
    ensures
        (r is Ok) == (validate_options_spec(*options) is None),
        r matches Result::Err(e) ==> validate_options_spec(*options) == Option::Some(e),
        r matches Result::Ok(out) ==> out@.len() == values@.len() && forall|i: int|
            0 <= i < values@.len() ==> out@[i] == rolling_mean_at(
                values@,
                i,
                options.window_size as int,
                options.min_periods as int,
                options.center,
            ),
{
    if let Option::Some(e) = validate_options(options) {
        return Result::Err(e);
    }
    let ghost s = values@;
    let w = options.window_size;
    let mp = if options.min_periods == 0 {
        1
    } else {
        options.min_periods
    };
    let len = values.len();
    let mut out: Vec<Option<Rational>> = Vec::new();
    let mut i: usize = 0;
    while i < len
        invariant
            i <= len,
            len == s.len(),
            s == values@,
            s.len() <= 0x7fff_ffff_ffff_ffff,
            in_rolling_range(s),
            w == options.window_size,
            w >= 1,
            mp as int == effective_min_periods(options.min_periods as int),
            out@.len() == i,
            forall|k: int|
                0 <= k < i ==> out@[k] == rolling_mean_at(
                    s,
                    k,
                    options.window_size as int,
                    options.min_periods as int,
                    options.center,
                ),
        decreases len - i,
    {
        let (lo, hi) = window_bounds(i, len, w, options.center);
        let (count, total) = sum_window(values, lo, hi);
        if count >= mp {
            out.push(Option::Some(Rational { num: total, den: count as u64 }));
        } else {
            out.push(Option::None);
        }
        i = i + 1;
    }
    Result::Ok(out)
}

/// The smallest value of a non-empty sequence.
pub open spec fn seq_min(s: Seq<i128>) -> i128
    recommends
        s.len() >= 1,
    decreases s.len(),
{
    if s.len() <= 1 {
        s[0]
    } else {
        let m = seq_min(s.drop_last());
        if s.last() < m {
            s.last()
        } else {
            m
        }
    }
}

/// The largest value of a non-empty sequence.
pub open spec fn seq_max(s: Seq<i128>) -> i128
    recommends
        s.len() >= 1,
    decreases s.len(),
{
    if s.len() <= 1 {
        s[0]
    } else {
        let m = seq_max(s.drop_last());
        if s.last() > m {
            s.last()
        } else {
            m
        }
    }
}

/// A non-empty sequence contains its minimum, which bounds every element
/// from below.
pub proof fn lemma_seq_min_ensures(s: Seq<i128>)
    requires
        s.len() >= 1,
    ensures
        s.contains(seq_min(s)),
        forall|k: int| 0 <= k < s.len() ==> seq_min(s) <= #[trigger] s[k],
    decreases s.len(),
{
    if s.len() == 1 {
        assert(s[0] == seq_min(s));
    } else {
        lemma_seq_min_ensures(s.drop_last());
        let m = seq_min(s.drop_last());
        if s.last() < m {
            assert(s[s.len() - 1] == seq_min(s));
        } else {
            let j = choose|j: int| 0 <= j < s.drop_last().len() && s.drop_last()[j] == m;
            assert(s[j] == m);
        }
        assert(forall|k: int| 0 <= k < s.len() - 1 ==> s[k] == s.drop_last()[k]);
    }
}

/// A non-empty sequence contains its maximum, which bounds every element
/// from above.
pub proof fn lemma_seq_max_ensures(s: Seq<i128>)
    requires
        s.len() >= 1,
    ensures
        s.contains(seq_max(s)),
        forall|k: int| 0 <= k < s.len() ==> #[trigger] s[k] <= seq_max(s),
    decreases s.len(),
{
    if s.len() == 1 {
        assert(s[0] == seq_max(s));
    } else {
        lemma_seq_max_ensures(s.drop_last());
        let m = seq_max(s.drop_last());
        if s.last() > m {
            assert(s[s.len() - 1] == seq_max(s));
        } else {
            let j = choose|j: int| 0 <= j < s.drop_last().len() && s.drop_last()[j] == m;
            assert(s[j] == m);
        }
        assert(forall|k: int| 0 <= k < s.len() - 1 ==> s[k] == s.drop_last()[k]);
    }
}

/// What the rolling minimum emits at position `i`: the smallest non-null
/// window value, or null when too few fall in the window.
pub open spec fn rolling_min_at(s: Seq<Option<i128>>, i: int, w: int, mp: int, center: bool) -> Option<
    i128,
> {
    let vals = window_vals_at(s, i, w, center);
    if vals.len() >= effective_min_periods(mp) {
        Option::Some(seq_min(vals))
    } else {
        Option::None
    }
}

/// What the rolling maximum emits at position `i`: the largest non-null
/// window value, or null when too few fall in the window.
pub open spec fn rolling_max_at(s: Seq<Option<i128>>, i: int, w: int, mp: int, center: bool) -> Option<
    i128,
> {
    let vals = window_vals_at(s, i, w, center);
    if vals.len() >= effective_min_periods(mp) {
        Option::Some(seq_max(vals))
    } else {
        Option::None
    }
}

/// Count the non-null values in `s[lo..hi]` and find their minimum.
fn min_window(values: &Vec<Option<i128>>, lo: usize, hi: usize) -> (r: (usize, Option<i128>))
    requires
        lo <= hi <= values@.len(),
    ensures
        r.0 == window_vals(values@, lo as int, hi as int).len(),
        (r.1 is None) == (r.0 == 0),
        r.1 matches Option::Some(m) ==> m == seq_min(window_vals(values@, lo as int, hi as int)),
{
    let ghost s = values@;
    let mut count: usize = 0;
    let mut best: Option<i128> = Option::None;
    let mut j: usize = lo;
    while j < hi
        invariant
            lo <= j <= hi <= s.len(),
            s == values@,
            count == window_vals(s, lo as int, j as int).len(),
            count <= j - lo,
            (best is None) == (count == 0),
            best matches Option::Some(m) ==> m == seq_min(window_vals(s, lo as int, j as int)),
        decreases hi - j,
    {
        match values[j] {
            Option::Some(v) => {
                proof {
                    let wv = window_vals(s, lo as int, j as int);
                    assert(window_vals(s, lo as int, j as int + 1) == wv.push(s[j as int]->0));
                    assert(wv.push(s[j as int]->0).drop_last() == wv);
                }
                best = match best {
                    Option::Some(m) => if v < m {
                        Option::Some(v)
                    } else {
                        Option::Some(m)
                    },
                    Option::None => Option::Some(v),
                };
                count = count + 1;
            },
            Option::None => {
                proof {
                    assert(window_vals(s, lo as int, j as int + 1) == window_vals(
                        s,
                        lo as int,
                        j as int,
                    ));
                }
            },
        }
        j = j + 1;
    }
    (count, best)
}

/// Count the non-null values in `s[lo..hi]` and find their maximum.
fn max_window(values: &Vec<Option<i128>>, lo: usize, hi: usize) -> (r: (usize, Option<i128>))
    requires
        lo <= hi <= values@.len(),
    ensures
        r.0 == window_vals(values@, lo as int, hi as int).len(),
        (r.1 is None) == (r.0 == 0),
        r.1 matches Option::Some(m) ==> m == seq_max(window_vals(values@, lo as int, hi as int)),
{
    let ghost s = values@;
    let mut count: usize = 0;
    let mut best: Option<i128> = Option::None;
    let mut j: usize = lo;
    while j < hi
        invariant
            lo <= j <= hi <= s.len(),
            s == values@,
            count == window_vals(s, lo as int, j as int).len(),
            count <= j - lo,
            (best is None) == (count == 0),
            best matches Option::Some(m) ==> m == seq_max(window_vals(s, lo as int, j as int)),
        decreases hi - j,
    {
        match values[j] {
            Option::Some(v) => {
                proof {
                    let wv = window_vals(s, lo as int, j as int);
                    assert(window_vals(s, lo as int, j as int + 1) == wv.push(s[j as int]->0));
                    assert(wv.push(s[j as int]->0).drop_last() == wv);
                }
                best = match best {
                    Option::Some(m) => if v > m {
                        Option::Some(v)
                    } else {
                        Option::Some(m)
                    },
                    Option::None => Option::Some(v),
                };
                count = count + 1;
            },
            Option::None => {
                proof {
                    assert(window_vals(s, lo as int, j as int + 1) == window_vals(
                        s,
                        lo as int,
                        j as int,
                    ));
                }
            },
        }
        j = j + 1;
    }
    (count, best)
}

/// Apply a rolling minimum: at each position the smallest non-null window
/// value, or null when fewer than the minimum count fall in the window.
pub fn rolling_min(values: &Vec<Option<i128>>, options: &RollingOptions) -> (r: PolarsResult<
    Vec<Option<i128>>,
>)
    ensures
        (r is Ok) == (validate_options_spec(*options) is None),
        r matches Result::Err(e) ==> validate_options_spec(*options) == Option::Some(e),
        r matches Result::Ok(out) ==> out@.len() == values@.len() && forall|i: int|
            0 <= i < values@.len() ==> out@[i] == rolling_min_at(
                values@,
                i,
                options.window_size as int,
                options.min_periods as int,
                options.center,
            ),
{
    if let Option::Some(e) = validate_options(options) {
        return Result::Err(e);
    }
    let ghost s = values@;
    let w = options.window_size;
    let mp = if options.min_periods == 0 {
        1
    } else {
        options.min_periods
    };
    let len = values.len();
    let mut out: Vec<Option<i128>> = Vec::new();
    let mut i: usize = 0;
    while i < len
        invariant
            i <= len,
            len == s.len(),
            s == values@,
            w == options.window_size,
            w >= 1,
            mp as int == effective_min_periods(options.min_periods as int),
            out@.len() == i,
            forall|k: int|
                0 <= k < i ==> out@[k] == rolling_min_at(
                    s,
                    k,
                    options.window_size as int,
                    options.min_periods as int,
                    options.center,
                ),
        decreases len - i,
    {
        let (lo, hi) = window_bounds(i, len, w, options.center);
        let (count, best) = min_window(values, lo, hi);
        if count >= mp {
            out.push(best);
        } else {
            out.push(Option::None);
        }
        i = i + 1;
    }
    Result::Ok(out)
}

/// Apply a rolling maximum: at each position the largest non-null window
/// value, or null when fewer than the minimum count fall in the window.
pub fn rolling_max(values: &Vec<Option<i128>>, options: &RollingOptions) -> (r: PolarsResult<
    Vec<Option<i128>>,
>)
    ensures
        (r is Ok) == (validate_options_spec(*options) is None),
        r matches Result::Err(e) ==> validate_options_spec(*options) == Option::Some(e),
        r matches Result::Ok(out) ==> out@.len() == values@.len() && forall|i: int|
            0 <= i < values@.len() ==> out@[i] == rolling_max_at(
                values@,
                i,
                options.window_size as int,
                options.min_periods as int,
                options.center,
            ),
{
    if let Option::Some(e) = validate_options(options) {
        return Result::Err(e);
    }
    let ghost s = values@;
    let w = options.window_size;
    let mp = if options.min_periods == 0 {
        1
    } else {
        options.min_periods
    };
    let len = values.len();
    let mut out: Vec<Option<i128>> = Vec::new();
    let mut i: usize = 0;
    while i < len
        invariant
            i <= len,
            len == s.len(),
            s == values@,
            w == options.window_size,
            w >= 1,
            mp as int == effective_min_periods(options.min_periods as int),
            out@.len() == i,
            forall|k: int|
                0 <= k < i ==> out@[k] == rolling_max_at(
                    s,
                    k,
                    options.window_size as int,
                    options.min_periods as int,
                    options.center,
                ),
        decreases len - i,
    {
        let (lo, hi) = window_bounds(i, len, w, options.center);
        let (count, best) = max_window(values, lo, hi);
        if count >= mp {
            out.push(best);
        } else {
            out.push(Option::None);
        }
        i = i + 1;
    }
    Result::Ok(out)
}

/// Every non-null element lies in the span whose sums of squares the
/// variance kernel can accumulate exactly in 128 bits: the signed 32-bit
/// range.
pub open spec fn in_var_range(s: Seq<Option<i128>>) -> bool {
    forall|j: int|
        0 <= j < s.len() ==> (#[trigger] s[j] matches Option::Some(v) ==> -0x8000_0000 <= v
            <= 0x7fff_ffff)
}

/// What the rolling sample variance emits at position `i`: the exact ratio
/// `(n * sum of squares - square of sum) / (n * (n - 1))` over the window's
/// `n` non-null values, with one delta degree of freedom, or null when too
/// few fall in the window. A sample variance needs at least two
/// observations, so a window with fewer is null whatever the minimum.
pub open spec fn rolling_var_at(s: Seq<Option<i128>>, i: int, w: int, mp: int, center: bool) -> Option<
    Rational,
> {
    let vals = window_vals_at(s, i, w, center);
    let n = vals.len() as int;
    if n >= effective_min_periods(mp) && n >= 2 {
        Option::Some(
            (Rational {
                num: (n * seq_sum_sq(vals) - seq_sum(vals) * seq_sum(vals)) as i128,
                den: (n * (n - 1)) as u64,
            }),
        )
    } else {
        Option::None
    }
}

/// Sums and sums of squares stay between the element bounds scaled by the
/// element count.
proof fn lemma_var_step(total: int, tsq: int, v: int, count: int, n: int)
    requires
        -0x8000_0000 * count <= total <= 0x7fff_ffff * count,
        0 <= tsq <= 0x4000_0000_0000_0000 * count,
        -0x8000_0000 <= v <= 0x7fff_ffff,
        0 <= count < n,
        n <= 0xffff_ffff,
    ensures
        -0x8000_0000 * (count + 1) <= total + v <= 0x7fff_ffff * (count + 1),
        0 <= tsq + v * v <= 0x4000_0000_0000_0000 * (count + 1),
        -0x8000_0000_0000_0000_0000_0000_0000_0000 <= total + v
            <= 0x7fff_ffff_ffff_ffff_ffff_ffff_ffff_ffff,
        0 <= v * v <= 0x4000_0000_0000_0000,
        tsq + v * v <= 0x7fff_ffff_ffff_ffff_ffff_ffff_ffff_ffff,
{
    assert(-0x8000_0000 * (count + 1) <= total + v <= 0x7fff_ffff * (count + 1)
        && 0 <= v * v <= 0x4000_0000_0000_0000 && 0 <= tsq + v * v <= 0x4000_0000_0000_0000 * (
    count + 1)) by (nonlinear_arith)
        requires
            -0x8000_0000 * count <= total <= 0x7fff_ffff * count,
            0 <= tsq <= 0x4000_0000_0000_0000 * count,
            -0x8000_0000 <= v <= 0x7fff_ffff,
            0 <= count,
    ;
    assert(-0x8000_0000_0000_0000_0000_0000_0000_0000 <= total + v
        <= 0x7fff_ffff_ffff_ffff_ffff_ffff_ffff_ffff && tsq + v * v
        <= 0x7fff_ffff_ffff_ffff_ffff_ffff_ffff_ffff) by (nonlinear_arith)
        requires
            -0x8000_0000 * (count + 1) <= total + v <= 0x7fff_ffff * (count + 1),
            0 <= tsq + v * v <= 0x4000_0000_0000_0000 * (count + 1),
            0 <= count < n,
            n <= 0xffff_ffff,
    ;
}

/// The variance numerator and denominator of a window stay representable.
proof fn lemma_var_result_bounds(total: int, tsq: int, count: int)
    requires
        -0x8000_0000 * count <= total <= 0x7fff_ffff * count,
        0 <= tsq <= 0x4000_0000_0000_0000 * count,
        2 <= count <= 0xffff_ffff,
    ensures
        -0x8000_0000_0000_0000_0000_0000_0000_0000 <= count * tsq
            <= 0x7fff_ffff_ffff_ffff_ffff_ffff_ffff_ffff,
        -0x8000_0000_0000_0000_0000_0000_0000_0000 <= total * total
            <= 0x7fff_ffff_ffff_ffff_ffff_ffff_ffff_ffff,
        -0x8000_0000_0000_0000_0000_0000_0000_0000 <= count * tsq - total * total
            <= 0x7fff_ffff_ffff_ffff_ffff_ffff_ffff_ffff,
        0 < count * (count - 1) <= 0xffff_ffff_ffff_ffff,
{
    assert(0 <= count * tsq <= 0x3fff_ffff_c000_0000_0000_0000_0000_0000 && 0 <= total * total
        <= 0x3fff_ffff_8000_0000_4000_0000_0000_0000 && 0 < count * (count - 1)
        <= 0xffff_ffff_ffff_ffff) by (nonlinear_arith)
        requires
            -0x8000_0000 * count <= total <= 0x7fff_ffff * count,
            0 <= tsq <= 0x4000_0000_0000_0000 * count,
            2 <= count <= 0xffff_ffff,
    ;
}

/// Count the non-null values in `s[lo..hi]`, sum them and sum their
/// squares.
fn var_window(values: &Vec<Option<i128>>, lo: usize, hi: usize) -> (r: (usize, i128, i128))
    requires
        lo <= hi <= values@.len(),
        values@.len() <= 0xffff_ffff,
        in_var_range(values@),
    ensures
        r.0 == window_vals(values@, lo as int, hi as int).len(),
        r.0 <= hi - lo,
        r.1 as int == seq_sum(window_vals(values@, lo as int, hi as int)),
        r.2 as int == seq_sum_sq(window_vals(values@, lo as int, hi as int)),
        -0x8000_0000 * (r.0 as int) <= r.1 as int <= 0x7fff_ffff * (r.0 as int),
        0 <= r.2 as int <= 0x4000_0000_0000_0000 * (r.0 as int),
{
    let ghost s = values@;
    let mut count: usize = 0;
    let mut total: i128 = 0;
    let mut tsq: i128 = 0;
    let mut j: usize = lo;
    while j < hi
        invariant
            lo <= j <= hi <= s.len(),
            s == values@,
            s.len() <= 0xffff_ffff,
            in_var_range(s),
            count == window_vals(s, lo as int, j as int).len(),
            total as int == seq_sum(window_vals(s, lo as int, j as int)),
            tsq as int == seq_sum_sq(window_vals(s, lo as int, j as int)),
            count <= j - lo,
            -0x8000_0000 * (count as int) <= total as int <= 0x7fff_ffff * (count as int),
            0 <= tsq as int <= 0x4000_0000_0000_0000 * (count as int),
        decreases hi - j,
    {
        match values[j] {
            Option::Some(v) => {
                proof {
                    let wv = window_vals(s, lo as int, j as int);
                    assert(window_vals(s, lo as int, j as int + 1) == wv.push(s[j as int]->0));
                    assert(wv.push(s[j as int]->0).drop_last() == wv);
                    lemma_var_step(total as int, tsq as int, v as int, count as int, s.len() as int);
                }
                total = total + v;
                tsq = tsq + v * v;
                count = count + 1;
            },
            Option::None => {
                proof {
                    assert(window_vals(s, lo as int, j as int + 1) == window_vals(
                        s,
                        lo as int,
                        j as int,
                    ));
                }
            },
        }
        j = j + 1;
    }
    (count, total, tsq)
}

/// Apply a rolling sample variance, with one delta degree of freedom: at
/// each position the exact variance ratio of the non-null window values,
/// or null when fewer than the minimum count, or fewer than two values,
/// fall in the window.
pub fn rolling_var(values: &Vec<Option<i128>>, options: &RollingOptions) -> (r: PolarsResult<
    Vec<Option<Rational>>,
>)
    requires
        values@.len() <= 0xffff_ffff,
        in_var_range(values@),
    ensures
        (r is Ok) == (validate_options_spec(*options) is None),
        r matches Result::Err(e) ==> validate_options_spec(*options) == Option::Some(e),
        r matches Result::Ok(out) ==> out@.len() == values@.len() && forall|i: int|
            0 <= i < values@.len() ==> out@[i] == rolling_var_at(
                values@,
                i,
                options.window_size as int,
                options.min_periods as int,
                options.center,
            ),
{
    if let Option::Some(e) = validate_options(options) {
        return Result::Err(e);
    }
    let ghost s = values@;
    let w = options.window_size;
    let mp = if options.min_periods == 0 {
        1
    } else {
        options.min_periods
    };
    let len = values.len();
    let mut out: Vec<Option<Rational>> = Vec::new();
    let mut i: usize = 0;
    while i < len
        invariant
            i <= len,
            len == s.len(),
            s == values@,
            s.len() <= 0xffff_ffff,
            in_var_range(s),
            w == options.window_size,
            w >= 1,
            mp as int == effective_min_periods(options.min_periods as int),
            out@.len() == i,
            forall|k: int|
                0 <= k < i ==> out@[k] == rolling_var_at(
                    s,
                    k,
                    options.window_size as int,
                    options.min_periods as int,
                    options.center,
                ),
        decreases len - i,
    {
        let (lo, hi) = window_bounds(i, len, w, options.center);
        let (count, total, tsq) = var_window(values, lo, hi);
        if count >= mp && count >= 2 {
            proof {
                lemma_var_result_bounds(total as int, tsq as int, count as int);
            }
            let c: i128 = count as i128;
            let num: i128 = c * tsq - total * total;
            let den: u64 = (count as u64) * ((count - 1) as u64);
            out.push(Option::Some(Rational { num, den }));
        } else {
            out.push(Option::None);
        }
        i = i + 1;
    }
    Result::Ok(out)
}

/// Interpolation strategy for a quantile that falls between two order
/// statistics.
#[derive(Clone, Copy, PartialEq, Eq, Structural, Debug)]
pub enum QuantileInterpolOptions {
    /// The order statistic at the rounded-down rank.
    Lower,
    /// The order statistic at the rounded-up rank.
    Higher,
    /// The midpoint of the two surrounding order statistics.
    Midpoint,
    /// Linear interpolation between the two surrounding order statistics.
    Linear,
}

/// A quantile probability, as an exact ratio of integers. It is valid when
/// the denominator is positive and the ratio lies in the unit interval.
#[derive(Clone, Copy, PartialEq, Eq, Structural, Debug)]
pub struct QuantileProb {
    /// The probability's numerator.
    pub num: u32,
    /// The probability's denominator.
    pub den: u32,
}

/// Whether a probability ratio lies in the unit interval.
pub open spec fn valid_quantile_prob(pn: int, pd: int) -> bool {
    1 <= pd && 0 <= pn <= pd
}

/// Whether a sequence is sorted in ascending order.
pub open spec fn sorted_ascending(s: Seq<i128>) -> bool {
    forall|a: int, b: int| 0 <= a < b < s.len() ==> s[a] <= s[b]
}

/// Whether `t` is the sorted version of `s`: ascending, holding exactly
/// the values of `s`. There is exactly one such sequence.
pub open spec fn is_sorted_version(t: Seq<i128>, s: Seq<i128>) -> bool {
    sorted_ascending(t) && t.to_multiset() == s.to_multiset()
}

/// Two sorted sequences holding the same values are the same sequence: the
/// sorted version a quantile contract quantifies over is unique.
pub proof fn lemma_sorted_version_unique(a: Seq<i128>, b: Seq<i128>)
    requires
        sorted_ascending(a),
        sorted_ascending(b),
        a.to_multiset() == b.to_multiset(),
    ensures
        a == b,
    decreases a.len(),
{
    if a.len() == 0 {
        assert(a.to_multiset().len() == 0);
        assert(b.len() == 0);
        assert(a =~= b);
    } else {
        assert(a.contains(a[0])) by {
            assert(a[0] == a[0]);
        }
        assert(b.to_multiset().count(a[0]) > 0);
        assert(b.contains(a[0]));
        assert(b.len() > 0);
        let ka = choose|k: int| 0 <= k < b.len() && b[k] == a[0];
        assert(b[0] <= a[0]);
        assert(b.contains(b[0])) by {
            assert(b[0] == b[0]);
        }
        assert(a.to_multiset().count(b[0]) > 0);
        assert(a.contains(b[0]));
        let kb = choose|k: int| 0 <= k < a.len() && a[k] == b[0];
        assert(a[0] <= b[0]);
        assert(a[0] == b[0]);
        let at = a.drop_first();
        let bt = b.drop_first();
        assert(at =~= a.remove(0));
        assert(bt =~= b.remove(0));
        assert(at.to_multiset() =~= a.to_multiset().remove(a[0]));
        assert(bt.to_multiset() =~= b.to_multiset().remove(b[0]));
        assert(sorted_ascending(at)) by {
            assert(forall|x: int, y: int|
                0 <= x < y < at.len() ==> at[x] == a[x + 1] && at[y] == a[y + 1]);
        }
        assert(sorted_ascending(bt)) by {
            assert(forall|x: int, y: int|
                0 <= x < y < bt.len() ==> bt[x] == b[x + 1] && bt[y] == b[y + 1]);
        }
        lemma_sorted_version_unique(at, bt);
        assert(a =~= b) by {
            assert(forall|x: int| 1 <= x < a.len() ==> a[x] == at[x - 1] && b[x] == bt[x - 1]);
        }
    }
}

/// Every sequence has a sorted version, so the quantile contracts never
/// quantify over an empty set of candidates.
pub proof fn lemma_sorted_version_exists(s: Seq<i128>)
    ensures
        exists|t: Seq<i128>| is_sorted_version(t, s),
{
    let leq = |x: i128, y: i128| x <= y;
    assert(vstd::relations::total_ordering(leq)) by {
        assert forall|x: i128| #[trigger] leq(x, x) by {
        }
        assert forall|x: i128, y: i128| #[trigger] leq(x, y) && #[trigger] leq(y, x) implies x
            == y by {
        }
        assert forall|x: i128, y: i128| #[trigger] leq(x, y) || #[trigger] leq(y, x) by {
        }
    }
    s.lemma_sort_by_ensures(leq);
    let t = s.sort_by(leq);
    assert(sorted_ascending(t)) by {
        assert forall|i: int, j: int| 0 <= i < j < t.len() implies t[i] <= t[j] by {
            assert(leq(t[i], t[j]));
        }
    }
    assert(t.to_multiset() == s.to_multiset());
    assert(is_sorted_version(t, s));
}

/// Inserting a value into a sequence adds it, and nothing else, to the
/// sequence's values.
proof fn lemma_seq_insert_multiset(s: Seq<i128>, i: int, a: i128)
    requires
        0 <= i <= s.len(),
    ensures
        s.insert(i, a).to_multiset() =~= s.to_multiset().insert(a),
{
    let t1 = s.subrange(0, i);
    let t2 = s.subrange(i, s.len() as int);
    lemma_multiset_commutative(t1.push(a), t2);
    lemma_multiset_commutative(t1, t2);
    assert(s =~= t1 + t2);
    assert(t1.push(a).to_multiset() =~= t1.to_multiset().insert(a));
    assert_multisets_equal!(s.insert(i, a).to_multiset(), s.to_multiset().insert(a));
}

/// Every value of a window lies between any bounds its source's non-null
/// elements respect.
pub proof fn lemma_window_vals_bounded(s: Seq<Option<i128>>, lo: int, hi: int, a: int, b: int)
    requires
        0 <= lo,
        hi <= s.len(),
        forall|j: int|
            0 <= j < s.len() ==> (#[trigger] s[j] matches Option::Some(v) ==> a <= v <= b),
    ensures
        forall|k: int|
            0 <= k < window_vals(s, lo, hi).len() ==> a <= #[trigger] window_vals(s, lo, hi)[k]
                <= b,
    decreases hi - lo,
{
    if lo < hi {
        lemma_window_vals_bounded(s, lo, hi - 1, a, b);
        let wv = window_vals(s, lo, hi - 1);
        assert forall|k: int|
            0 <= k < window_vals(s, lo, hi).len() implies a <= #[trigger] window_vals(s, lo, hi)[k]
            <= b by {
            match s[hi - 1] {
                Option::Some(v) => {
                    assert(window_vals(s, lo, hi) == wv.push(v));
                    if k < wv.len() {
                        assert(wv.push(v)[k] == wv[k]);
                    } else {
                        assert(wv.push(v)[k] == v);
                    }
                },
                Option::None => {
                    assert(window_vals(s, lo, hi) == wv);
                },
            }
        }
    }
}

/// Every value of a sorted version lies between any bounds the unsorted
/// sequence's values respect.
proof fn lemma_sorted_version_bounded(t: Seq<i128>, s: Seq<i128>, a: int, b: int)
    requires
        t.to_multiset() == s.to_multiset(),
        forall|k: int| 0 <= k < s.len() ==> a <= #[trigger] s[k] <= b,
    ensures
        forall|k: int| 0 <= k < t.len() ==> a <= #[trigger] t[k] <= b,
{
    assert forall|k: int| 0 <= k < t.len() implies a <= #[trigger] t[k] <= b by {
        assert(t.contains(t[k])) by {
            assert(t[k] == t[k]);
        }
        assert(s.to_multiset().count(t[k]) > 0);
        assert(s.contains(t[k]));
    }
}

/// The quantile of a non-empty sorted sequence `t` at probability
/// `pn / pd`: the rank `pn * (len - 1) / pd` splits into an index and a
/// fractional carry, and the interpolation strategy combines the order
/// statistics on either side.
pub open spec fn quantile_of(
    t: Seq<i128>,
    pn: int,
    pd: int,
    interpol: QuantileInterpolOptions,
) -> Rational
    recommends
        t.len() >= 1,
        valid_quantile_prob(pn, pd),
{
    let h = pn * (t.len() - 1);
    let idx = h / pd;
    let frac = h % pd;
    let hi_idx = if frac > 0 {
        idx + 1
    } else {
        idx
    };
    match interpol {
        QuantileInterpolOptions::Lower => Rational { num: t[idx], den: 1 },
        QuantileInterpolOptions::Higher => Rational { num: t[hi_idx], den: 1 },
        QuantileInterpolOptions::Midpoint => Rational {
            num: (t[idx] + t[hi_idx]) as i128,
            den: 2,
        },
        QuantileInterpolOptions::Linear => Rational {
            num: (t[idx] * pd + frac * (t[hi_idx] - t[idx])) as i128,
            den: pd as u64,
        },
    }
}

/// What a rolling quantile emits at position `i`: null when too few
/// non-null values fall in the window, and otherwise the interpolated
/// quantile of the window's sorted version.
pub open spec fn rolling_quantile_emits(
    s: Seq<Option<i128>>,
    i: int,
    w: int,
    mp: int,
    center: bool,
    pn: int,
    pd: int,
    interpol: QuantileInterpolOptions,
    o: Option<Rational>,
) -> bool {
    let vals = window_vals_at(s, i, w, center);
    if vals.len() >= effective_min_periods(mp) {
        forall|t: Seq<i128>|
            is_sorted_version(t, vals) ==> o == Option::Some(quantile_of(t, pn, pd, interpol))
    } else {
        o is None
    }
}

/// The non-null values in `s[lo..hi]`, in order.
fn gather_window(values: &Vec<Option<i128>>, lo: usize, hi: usize) -> (r: Vec<i128>)
    requires
        lo <= hi <= values@.len(),
    ensures
        r@ == window_vals(values@, lo as int, hi as int),
        r@.len() <= hi - lo,
{
    let ghost s = values@;
    let mut out: Vec<i128> = Vec::new();
    let mut j: usize = lo;
    while j < hi
        invariant
            lo <= j <= hi <= s.len(),
            s == values@,
            out@ == window_vals(s, lo as int, j as int),
            out@.len() <= j - lo,
        decreases hi - j,
    {
        match values[j] {
            Option::Some(v) => {
                out.push(v);
            },
            Option::None => {},
        }
        j = j + 1;
    }
    out
}

/// Sort a window's values in place, ascending.
fn sort_window(v: &mut Vec<i128>)
    ensures
        sorted_ascending(final(v)@),
        final(v)@.to_multiset() == old(v)@.to_multiset(),
        final(v)@.len() == old(v)@.len(),
{
    let mut i: usize = 1;
    while i < v.len()
        invariant
            i >= 1,
            v@.len() == old(v)@.len(),
            v@.to_multiset() == old(v)@.to_multiset(),
            forall|a: int, b: int| 0 <= a < b < i && b < v@.len() ==> v@[a] <= v@[b],
        decreases v@.len() - i,
    {
        let ghost pre = v@;
        let x = v.remove(i);
        proof {
            assert(v@ =~= pre.subrange(0, i as int) + pre.subrange(i as int + 1, pre.len() as int));
            assert(forall|k: int| 0 <= k < i ==> v@[k] == pre[k]);
            assert(pre.contains(x)) by {
                assert(pre[i as int] == x);
            }
            assert(v@.to_multiset() =~= pre.to_multiset().remove(x));
        }
        let ghost mid = v@;
        let mut j: usize = 0;
        while j < i && v[j] <= x
            invariant
                j <= i,
                i <= v@.len(),
                v@ == mid,
                forall|k: int| 0 <= k < j ==> v@[k] <= x,
            decreases i - j,
        {
            j = j + 1;
        }
        proof {
            assert(j == i || mid[j as int] > x);
        }
        v.insert(j, x);
        proof {
            lemma_seq_insert_multiset(mid, j as int, x);
            assert(pre.to_multiset().count(x) > 0);
            assert_multisets_equal!(v@.to_multiset(), pre.to_multiset());
            assert forall|a: int, b: int|
                0 <= a < b < i + 1 && b < v@.len() implies v@[a] <= v@[b] by {
                assert(forall|k: int| 0 <= k < j ==> v@[k] == mid[k]);
                assert(v@[j as int] == x);
                assert(forall|k: int| j < k <= i ==> v@[k] == mid[k - 1]);
                assert(forall|k: int| 0 <= k < j ==> mid[k] <= x);
                if (j as int) < i {
                    assert(mid[j as int] > x);
                    assert(forall|k: int| j <= k < i ==> mid[k] >= mid[j as int]);
                }
            }
        }
        i = i + 1;
    }
}

/// Products and sums of a quantile computation stay representable.
proof fn lemma_quantile_bounds(tl: int, pn: int, pd: int, lo_v: int, hi_v: int, frac: int)
    requires
        1 <= tl <= 0x7fff_ffff_ffff_ffff,
        1 <= pd <= 0xffff_ffff,
        0 <= pn <= pd,
        -0x8000_0000_0000_0000 <= lo_v <= 0xffff_ffff_ffff_ffff,
        -0x8000_0000_0000_0000 <= hi_v <= 0xffff_ffff_ffff_ffff,
        0 <= frac < pd,
    ensures
        0 <= pn * (tl - 1) <= 0x7fff_ffff_ffff_ffff_ffff_ffff_ffff_ffff,
        -0x8000_0000_0000_0000_0000_0000_0000_0000 <= lo_v * pd + frac * (hi_v - lo_v)
            <= 0x7fff_ffff_ffff_ffff_ffff_ffff_ffff_ffff,
        -0x8000_0000_0000_0000_0000_0000_0000_0000 <= lo_v * pd
            <= 0x7fff_ffff_ffff_ffff_ffff_ffff_ffff_ffff,
        -0x8000_0000_0000_0000_0000_0000_0000_0000 <= frac * (hi_v - lo_v)
            <= 0x7fff_ffff_ffff_ffff_ffff_ffff_ffff_ffff,
{
    assert(0 <= pn * (tl - 1) <= 0x7fff_ffff_ffff_ffff_ffff_ffff_ffff_ffff
        && -0x1_0000_0000_0000_0000_0000_0000 <= lo_v * pd <= 0x1_0000_0000_0000_0000_0000_0000
        && -0x2_0000_0000_0000_0000_0000_0000 <= frac * (hi_v - lo_v)
        <= 0x2_0000_0000_0000_0000_0000_0000) by (nonlinear_arith)
        requires
            1 <= tl <= 0x7fff_ffff_ffff_ffff,
            1 <= pd <= 0xffff_ffff,
            0 <= pn <= pd,
            -0x8000_0000_0000_0000 <= lo_v <= 0xffff_ffff_ffff_ffff,
            -0x8000_0000_0000_0000 <= hi_v <= 0xffff_ffff_ffff_ffff,
            0 <= frac < pd,
    ;
}

/// The interpolated quantile of a non-empty sorted window.
fn quantile_window(
    t: &Vec<i128>,
    pn: u32,
    pd: u32,
    interpol: QuantileInterpolOptions,
) -> (r: Rational)
    requires
        1 <= t@.len() <= 0x7fff_ffff_ffff_ffff,
        1 <= pd,
        pn <= pd,
        forall|k: int|
            0 <= k < t@.len() ==> -0x8000_0000_0000_0000 <= #[trigger] t@[k]
                <= 0xffff_ffff_ffff_ffff,
    ensures
        r == quantile_of(t@, pn as int, pd as int, interpol),
{
    let n = t.len();
    proof {
        assert(0 <= (pn as int) * ((n - 1) as int) <= 0x7fff_ffff_ffff_ffff_ffff_ffff_ffff_ffff)
            by (nonlinear_arith)
            requires
                0 <= (pn as int) && (pn as int) <= 0xffff_ffff,
                1 <= (n as int) && (n as int) <= 0x7fff_ffff_ffff_ffff,
        ;
    }
    let h: i128 = (pn as i128) * ((n - 1) as i128);
    let pdi: i128 = pd as i128;
    let idx_i: i128 = h / pdi;
    let frac: i128 = h % pdi;
    proof {
        vstd::arithmetic::div_mod::lemma_fundamental_div_mod(h as int, pdi as int);
        vstd::arithmetic::div_mod::lemma_mod_bound(h as int, pdi as int);
        vstd::arithmetic::div_mod::lemma_div_pos_is_pos(h as int, pdi as int);
        assert((h as int) <= (pd as int) * ((n - 1) as int)) by (nonlinear_arith)
            requires
                h as int == (pn as int) * ((n - 1) as int),
                0 <= (pn as int) && (pn as int) <= (pd as int),
                n as int >= 1,
        ;
        assert((idx_i as int) <= ((n - 1) as int)) by (nonlinear_arith)
            requires
                (h as int) == (pdi as int) * (idx_i as int) + (frac as int),
                0 <= (frac as int) && (frac as int) < (pdi as int),
                h as int <= (pdi as int) * ((n - 1) as int),
                pdi as int >= 1,
        ;
        assert((frac as int) > 0 ==> (idx_i as int) < ((n - 1) as int)) by (nonlinear_arith)
            requires
                (h as int) == (pdi as int) * (idx_i as int) + (frac as int),
                0 <= (frac as int) && (frac as int) < (pdi as int),
                h as int <= (pdi as int) * ((n - 1) as int),
                pdi as int >= 1,
        ;
    }
    let idx: usize = idx_i as usize;
    let hi_idx: usize = if frac > 0 {
        idx + 1
    } else {
        idx
    };
    proof {
        lemma_quantile_bounds(
            n as int,
            pn as int,
            pd as int,
            t@[idx as int] as int,
            t@[hi_idx as int] as int,
            frac as int,
        );
    }
    match interpol {
        QuantileInterpolOptions::Lower => Rational { num: t[idx], den: 1 },
        QuantileInterpolOptions::Higher => Rational { num: t[hi_idx], den: 1 },
        QuantileInterpolOptions::Midpoint => Rational { num: t[idx] + t[hi_idx], den: 2 },
        QuantileInterpolOptions::Linear => Rational {
            num: t[idx] * pdi + frac * (t[hi_idx] - t[idx]),
            den: pd as u64,
        },
    }
}

/// Apply a rolling quantile at the given probability: at each position the
/// interpolated quantile of the non-null window values, or null when fewer
/// than the minimum fall in the window. An invalid probability fails
/// validation before any windowing work.
pub fn rolling_quantile(
    values: &Vec<Option<i128>>,
    prob: QuantileProb,
    interpol: QuantileInterpolOptions,
    options: &RollingOptions,
) -> (r: PolarsResult<Vec<Option<Rational>>>)
    requires
        values@.len() <= 0x7fff_ffff_ffff_ffff,
        in_rolling_range(values@),
    ensures
        !valid_quantile_prob(prob.num as int, prob.den as int) ==> r == PolarsResult::<
            Vec<Option<Rational>>,
        >::Err(PolarsError::InvalidQuantile),
        valid_quantile_prob(prob.num as int, prob.den as int) ==> ((r is Ok) == (
        validate_options_spec(*options) is None) && (r matches Result::Err(e)
            ==> validate_options_spec(*options) == Option::Some(e))),
        r matches Result::Ok(out) ==> out@.len() == values@.len() && forall|i: int|
            0 <= i < values@.len() ==> rolling_quantile_emits(
                values@,
                i,
                options.window_size as int,
                options.min_periods as int,
                options.center,
                prob.num as int,
                prob.den as int,
                interpol,
                out@[i],
            ),
{
    if prob.den == 0 || prob.num > prob.den {
        return Result::Err(PolarsError::InvalidQuantile);
    }
    if let Option::Some(e) = validate_options(options) {
        return Result::Err(e);
    }
    let ghost s = values@;
    let w = options.window_size;
    let mp = if options.min_periods == 0 {
        1
    } else {
        options.min_periods
    };
    let len = values.len();
    let mut out: Vec<Option<Rational>> = Vec::new();
    let mut i: usize = 0;
    while i < len
        invariant
            i <= len,
            len == s.len(),
            s == values@,
            s.len() <= 0x7fff_ffff_ffff_ffff,
            in_rolling_range(s),
            w == options.window_size,
            w >= 1,
            1 <= prob.den,
            prob.num <= prob.den,
            mp as int == effective_min_periods(options.min_periods as int),
            out@.len() == i,
            forall|k: int|
                0 <= k < i ==> rolling_quantile_emits(
                    s,
                    k,
                    options.window_size as int,
                    options.min_periods as int,
                    options.center,
                    prob.num as int,
                    prob.den as int,
                    interpol,
                    out@[k],
                ),
        decreases len - i,
    {
        let (lo, hi) = window_bounds(i, len, w, options.center);
        let ghost wvals = window_vals(s, lo as int, hi as int);
        let mut win = gather_window(values, lo, hi);
        if win.len() >= mp {
            sort_window(&mut win);
            proof {
                lemma_window_vals_bounded(
                    s,
                    lo as int,
                    hi as int,
                    -0x8000_0000_0000_0000,
                    0xffff_ffff_ffff_ffff,
                );
                lemma_sorted_version_bounded(
                    win@,
                    wvals,
                    -0x8000_0000_0000_0000,
                    0xffff_ffff_ffff_ffff,
                );
                assert(wvals.to_multiset().len() == wvals.len());
                assert(win@.to_multiset().len() == win@.len());
            }
            let q = quantile_window(&win, prob.num, prob.den, interpol);
            proof {
                assert forall|t: Seq<i128>| is_sorted_version(t, wvals) implies Option::Some(q)
                    == Option::Some(
                    quantile_of(t, prob.num as int, prob.den as int, interpol),
                ) by {
                    lemma_sorted_version_unique(t, win@);
                }
            }
            out.push(Option::Some(q));
        } else {
            out.push(Option::None);
        }
        i = i + 1;
    }
    Result::Ok(out)
}

/// Apply a rolling median: the quantile at probability one half, linearly
/// interpolated, so that an even-sized window yields the midpoint of its
/// two central values.
pub fn rolling_median(values: &Vec<Option<i128>>, options: &RollingOptions) -> (r: PolarsResult<
    Vec<Option<Rational>>,
>)
    requires
        values@.len() <= 0x7fff_ffff_ffff_ffff,
        in_rolling_range(values@),
    ensures
        (r is Ok) == (validate_options_spec(*options) is None),
        r matches Result::Err(e) ==> validate_options_spec(*options) == Option::Some(e),
        r matches Result::Ok(out) ==> out@.len() == values@.len() && forall|i: int|
            0 <= i < values@.len() ==> rolling_quantile_emits(
                values@,
                i,
                options.window_size as int,
                options.min_periods as int,
                options.center,
                1,
                2,
                QuantileInterpolOptions::Linear,
                out@[i],
            ),
{
    rolling_quantile(
        values,
        QuantileProb { num: 1, den: 2 },
        QuantileInterpolOptions::Linear,
        options,
    )
}

} // verus!
