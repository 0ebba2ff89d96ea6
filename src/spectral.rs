//! The exact, integer side of the multitaper spectrogram: how a signal is cut
//! into segments, which frequency bins exist and how they are folded, which
//! bins fall in the display band, and where the display percentiles sit in
//! the sorted values. The arithmetic on samples is done by the caller.
use vstd::prelude::*;

verus! {

/// Lower edge of the display band, in millihertz (inclusive).
pub const BAND_LOW_MILLIHERTZ: u64 = 500;

/// Upper edge of the display band, in millihertz (inclusive).
pub const BAND_HIGH_MILLIHERTZ: u64 = 25000;

/// Share of the values trimmed at each end of the display range, as a
/// fraction `TRIM_NUMERATOR / TRIM_DENOMINATOR` (2.5 %).
pub const TRIM_NUMERATOR: u64 = 25;

pub const TRIM_DENOMINATOR: u64 = 1000;

#[derive(Debug, PartialEq, Eq, Structural)]
pub enum SpectralError {
    /// The signal holds no samples.
    EmptySignal,
    /// The taper window holds no samples.
    EmptyWindow,
    /// The taper window is longer than the signal.
    WindowLongerThanSignal,
}

/// How a signal of `signal_len` samples is cut into segments of `nperseg`.
#[derive(Debug, PartialEq, Eq, Structural)]
pub struct SpectrogramLayout {
    pub nperseg: usize,
    /// Number of whole, non-overlapping segments; a trailing remainder is dropped.
    pub segment_count: usize,
    /// Number of one-sided frequency bins, `0 ..= nperseg / 2`.
    pub bin_count: usize,
}

pub open spec fn layout_of(signal_len: int, nperseg: int) -> SpectrogramLayout {
    SpectrogramLayout {
        nperseg: nperseg as usize,
        segment_count: (signal_len / nperseg) as usize,
        bin_count: (nperseg / 2 + 1) as usize,
    }
}

/// Checks the inputs of a spectrogram and lays out its segments and bins.
pub fn plan_spectrogram(signal_len: usize, nperseg: usize) -> (r: Result<
    SpectrogramLayout,
    SpectralError,
>)
    ensures
        r == Err::<SpectrogramLayout, SpectralError>(SpectralError::EmptySignal) <==> signal_len
            == 0,
        r == Err::<SpectrogramLayout, SpectralError>(SpectralError::EmptyWindow) <==> signal_len
            > 0 && nperseg == 0,
        r == Err::<SpectrogramLayout, SpectralError>(SpectralError::WindowLongerThanSignal) <==> (
        signal_len > 0 && nperseg > signal_len),
        r is Ok <==> 0 < nperseg <= signal_len,
        r matches Ok(l) ==> l == layout_of(signal_len as int, nperseg as int) && l.segment_count
            >= 1,
{
    if signal_len == 0 {
        return Err(SpectralError::EmptySignal);
    }
    if nperseg == 0 {
        return Err(SpectralError::EmptyWindow);
    }
    if nperseg > signal_len {
        return Err(SpectralError::WindowLongerThanSignal);
    }
    assert(signal_len / nperseg >= 1) by (nonlinear_arith)
        requires
            0 < nperseg <= signal_len,
    ;
    Ok(SpectrogramLayout {
        nperseg,
        segment_count: signal_len / nperseg,
        bin_count: nperseg / 2 + 1,
    })
}

/// Factor by which bin `bin` of a one-sided spectrum of an `nperseg`-point
/// transform is scaled to hold the energy of its negative-frequency twin:
/// 1 for the DC bin and, for even `nperseg`, the Nyquist bin; 2 otherwise.
pub open spec fn fold_factor_of(bin: int, nperseg: int) -> u64 {
    if bin == 0 || (nperseg % 2 == 0 && bin == nperseg / 2) {
        1
    } else {
        2
    }
}

pub fn fold_factor(bin: usize, nperseg: usize) -> (r: u64)
    requires
        bin <= nperseg / 2,
    ensures
        r == fold_factor_of(bin as int, nperseg as int),
{
    if bin == 0 || (nperseg % 2 == 0 && bin == nperseg / 2) {
        1
    } else {
        2
    }
}

/// Centre of segment `c`, in samples from the start of the signal: its
/// first sample plus half its length, rounded down.
pub open spec fn segment_centre_of(c: int, nperseg: int) -> int {
    c * nperseg + nperseg / 2
}

/// Centres of the segments of `layout`, in whole samples; divided by the
/// sample rate they are the spectrogram's time axis in seconds, spaced by
/// `nperseg` samples.
pub fn segment_centres(layout: &SpectrogramLayout, signal_len: usize) -> (r: Vec<usize>)
    requires
        *layout == layout_of(signal_len as int, layout.nperseg as int),
        layout.nperseg > 0,
    ensures
        r@.len() == layout.segment_count,
        forall|c: int|
            0 <= c < r@.len() ==> #[trigger] r@[c] == segment_centre_of(c, layout.nperseg as int),
{
    let n = layout.nperseg;
    let mut out: Vec<usize> = Vec::new();
    let mut c: usize = 0;
    while c < layout.segment_count
        invariant
            c <= layout.segment_count,
            layout.segment_count == signal_len as int / layout.nperseg as int,
            n == layout.nperseg,
            n > 0,
            out@.len() == c,
            forall|k: int| 0 <= k < c ==> #[trigger] out@[k] == segment_centre_of(k, n as int),
        decreases layout.segment_count - c,
    {
        assert(c * n + n <= signal_len) by (nonlinear_arith)
            requires
                c < signal_len as int / n as int,
                n > 0,
        ;
        out.push(c * n + n / 2);
        c += 1;
    }
    out
}

/// Bin `k` of an `nperseg`-point transform of a signal sampled at
/// `rate_num / rate_den` Hz lies in the display band, edges included.
pub open spec fn in_band(k: int, nperseg: int, rate_num: int, rate_den: int) -> bool {
    &&& BAND_LOW_MILLIHERTZ * nperseg * rate_den <= 1000 * k * rate_num
    &&& 1000 * k * rate_num <= BAND_HIGH_MILLIHERTZ * nperseg * rate_den
}

/// The bins below `bins` that lie in the display band, ascending.
pub open spec fn band_of(bins: nat, nperseg: int, rate_num: int, rate_den: int) -> Seq<usize>
    decreases bins,
{
    if bins == 0 {
        Seq::empty()
    } else {
        let prev = band_of((bins - 1) as nat, nperseg, rate_num, rate_den);
        if in_band(bins - 1, nperseg, rate_num, rate_den) {
            prev.push((bins - 1) as usize)
        } else {
            prev
        }
    }
}

/// The frequency bins, of the `nperseg / 2 + 1` that an `nperseg`-point
/// transform yields, whose frequency lies in the display band; the sample
/// rate is `rate_num / rate_den` Hz.
pub fn band_bins(nperseg: usize, rate_num: u64, rate_den: u64) -> (r: Vec<usize>)
    requires
        rate_den > 0,
        nperseg * rate_num <= u64::MAX,
        nperseg * rate_den <= u64::MAX,
    ensures
        r@ == band_of((nperseg / 2 + 1) as nat, nperseg as int, rate_num as int, rate_den as int),
{
    let bins = nperseg / 2 + 1;
    let n = nperseg as u128;
    let num = rate_num as u128;
    let den = rate_den as u128;
    assert(n * den <= u64::MAX);
    let low = BAND_LOW_MILLIHERTZ as u128 * (n * den);
    let high = BAND_HIGH_MILLIHERTZ as u128 * (n * den);
    assert(BAND_LOW_MILLIHERTZ * (n * den) == BAND_LOW_MILLIHERTZ * n * den) by (nonlinear_arith);
    assert(BAND_HIGH_MILLIHERTZ * (n * den) == BAND_HIGH_MILLIHERTZ * n * den) by (nonlinear_arith);
    let mut out: Vec<usize> = Vec::new();
    let mut k: usize = 0;
    while k < bins
        invariant
            k <= bins,
            bins == nperseg / 2 + 1,
            n == nperseg,
            num == rate_num,
            den == rate_den,
            n * num <= u64::MAX,
            low == BAND_LOW_MILLIHERTZ * nperseg * rate_den,
            high == BAND_HIGH_MILLIHERTZ * nperseg * rate_den,
            out@ == band_of(k as nat, nperseg as int, rate_num as int, rate_den as int),
        decreases bins - k,
    {
        assert(k * num <= n * num) by (nonlinear_arith)
            requires
                k <= n,
        ;
        assert(1000 * (k * num) == 1000 * k * num) by (nonlinear_arith);
        let f = 1000 * (k as u128 * num);
        if low <= f && f <= high {
            out.push(k);
        }
        k += 1;
    }
    out
}

/// Where a quantile sits among `n` sorted values: between positions `lower`
/// and `upper`, at `fraction_num / fraction_den` of the way from one to the
/// other (linear interpolation).
#[derive(Debug, PartialEq, Eq, Structural)]
pub struct PercentilePosition {
    pub lower: usize,
    pub upper: usize,
    pub fraction_num: u64,
    pub fraction_den: u64,
}

/// Position of quantile `q_num / q_den` among `n` sorted values, at
/// `(n - 1) * q`.
pub open spec fn percentile_position_of(n: int, q_num: int, q_den: int) -> PercentilePosition {
    let idx = (n - 1) * q_num;
    PercentilePosition {
        lower: (idx / q_den) as usize,
        upper: if idx % q_den == 0 {
            (idx / q_den) as usize
        } else {
            (idx / q_den + 1) as usize
        },
        fraction_num: (idx % q_den) as u64,
        fraction_den: q_den as u64,
    }
}

pub fn percentile_position(n: usize, q_num: u64, q_den: u64) -> (r: PercentilePosition)
    requires
        n > 0,
        q_den > 0,
        q_num <= q_den,
    ensures
        r == percentile_position_of(n as int, q_num as int, q_den as int),
        r.lower <= r.upper < n,
{
    assert((n - 1) * q_num <= u128::MAX) by (nonlinear_arith)
        requires
            n <= usize::MAX,
            q_num <= u64::MAX,
    ;
    let idx = (n - 1) as u128 * q_num as u128;
    assert(idx <= (n - 1) * q_den) by (nonlinear_arith)
        requires
            idx == (n - 1) * q_num,
            q_num <= q_den,
            n >= 1,
    ;
    let den = q_den as u128;
    let lower = idx / den;
    let rem = idx % den;
    assert(lower <= n - 1) by (nonlinear_arith)
        requires
            lower == idx / den,
            idx <= (n - 1) * den,
            den > 0,
    ;
    assert(rem != 0 ==> lower < n - 1) by (nonlinear_arith)
        requires
            lower == idx / den,
            rem == idx % den,
            idx <= (n - 1) * den,
            den > 0,
    ;
    let upper = if rem == 0 {
        lower
    } else {
        lower + 1
    };
    PercentilePosition {
        lower: lower as usize,
        upper: upper as usize,
        fraction_num: rem as u64,
        fraction_den: q_den,
    }
}

/// Positions of the lower and upper display percentiles among `n` sorted
/// values, trimming `trim_num / trim_den` of the values at each end.
pub fn trim_positions(n: usize, trim_num: u64, trim_den: u64) -> (r: (
    PercentilePosition,
    PercentilePosition,
))
    requires
        n > 0,
        trim_den > 0,
        2 * trim_num <= trim_den,
    ensures
        r.0 == percentile_position_of(n as int, trim_num as int, trim_den as int),
        r.1 == percentile_position_of(n as int, trim_den - trim_num, trim_den as int),
        r.0.lower <= r.1.lower,
        r.0.upper <= r.1.upper,
        r.1.upper < n,
{
    let low = percentile_position(n, trim_num, trim_den);
    let high = percentile_position(n, trim_den - trim_num, trim_den);
    proof {
        lemma_percentile_monotone(n as int, trim_num as int, (trim_den - trim_num) as int, trim_den as int);
    }
    (low, high)
}

/// A higher quantile never sits before a lower one: both its bracketing
/// positions are at least those of the lower quantile, and both stay within
/// the `n` values, so either interpolated percentile lies between the
/// smallest and the largest value.
pub proof fn lemma_percentile_monotone(n: int, q1: int, q2: int, den: int)
    requires
        n > 0,
        den > 0,
        0 <= q1 <= q2 <= den,
        n <= usize::MAX,
    ensures
        percentile_position_of(n, q1, den).lower <= percentile_position_of(n, q2, den).lower,
        percentile_position_of(n, q1, den).upper <= percentile_position_of(n, q2, den).upper,
        percentile_position_of(n, q1, den).lower <= percentile_position_of(n, q1, den).upper,
        percentile_position_of(n, q2, den).upper <= n - 1,
{
    let i1 = (n - 1) * q1;
    let i2 = (n - 1) * q2;
    assert(0 <= i1 <= i2 <= (n - 1) * den) by (nonlinear_arith)
        requires
            n > 0,
            0 <= q1 <= q2 <= den,
            i1 == (n - 1) * q1,
            i2 == (n - 1) * q2,
    ;
    assert(i1 / den <= i2 / den) by (nonlinear_arith)
        requires
            0 <= i1 <= i2,
            den > 0,
    ;
    assert(i2 / den <= n - 1) by (nonlinear_arith)
        requires
            0 <= i2 <= (n - 1) * den,
            den > 0,
    ;
    assert(i2 % den != 0 ==> i2 / den < n - 1) by (nonlinear_arith)
        requires
            0 <= i2 <= (n - 1) * den,
            den > 0,
    ;
    assert(i1 % den != 0 && i2 % den == 0 ==> i1 / den < i2 / den) by (nonlinear_arith)
        requires
            0 <= i1 <= i2,
            den > 0,
    ;
    assert(i1 / den <= i1 / den + 1 <= n);
    let p1 = percentile_position_of(n, q1, den);
    let p2 = percentile_position_of(n, q2, den);
    assert(p1.lower == i1 / den);
    assert(p2.lower == i2 / den);
    assert(p1.upper == if i1 % den == 0 { i1 / den } else { i1 / den + 1 });
    assert(p2.upper == if i2 % den == 0 { i2 / den } else { i2 / den + 1 });
}

/// The percentile at `p` among the sorted values `sorted`, interpolated
/// linearly between the bracketing values and multiplied by `p.fraction_den`
/// so that it is exact.
pub open spec fn scaled_percentile(sorted: Seq<int>, p: PercentilePosition) -> int {
    sorted[p.lower as int] * p.fraction_den + p.fraction_num * (sorted[p.upper as int]
        - sorted[p.lower as int])
}

pub open spec fn is_sorted(s: Seq<int>) -> bool {
    forall|i: int, j: int| 0 <= i <= j < s.len() ==> s[i] <= s[j]
}

/// On sorted values, the lower display percentile never exceeds the upper
/// one, and both lie between the smallest and the largest value (all taken
/// exactly, scaled by the trim fraction's denominator).
pub proof fn lemma_trimmed_percentiles_ordered(sorted: Seq<int>, trim_num: int, trim_den: int)
    requires
        sorted.len() > 0,
        sorted.len() <= usize::MAX,
        is_sorted(sorted),
        trim_den > 0,
        trim_den <= u64::MAX,
        0 <= 2 * trim_num <= trim_den,
    ensures
        ({
            let n = sorted.len() as int;
            let low = percentile_position_of(n, trim_num, trim_den);
            let high = percentile_position_of(n, trim_den - trim_num, trim_den);
            &&& sorted[0] * trim_den <= scaled_percentile(sorted, low)
            &&& scaled_percentile(sorted, low) <= scaled_percentile(sorted, high)
            &&& scaled_percentile(sorted, high) <= sorted[n - 1] * trim_den
        }),
{
    let n = sorted.len() as int;
    let q1 = trim_num;
    let q2 = trim_den - trim_num;
    let den = trim_den;
    lemma_percentile_monotone(n, q1, q2, den);
    let low = percentile_position_of(n, q1, den);
    let high = percentile_position_of(n, q2, den);
    lemma_percentile_bracket(sorted, q1, den);
    lemma_percentile_bracket(sorted, q2, den);
    let (l1, u1, f1) = (low.lower as int, low.upper as int, low.fraction_num as int);
    let (l2, u2, f2) = (high.lower as int, high.upper as int, high.fraction_num as int);
    let v1 = scaled_percentile(sorted, low);
    let v2 = scaled_percentile(sorted, high);
    assert(sorted[0] <= sorted[l1]);
    assert(sorted[u2] <= sorted[n - 1]);
    assert(sorted[0] * den <= sorted[l1] * den) by (nonlinear_arith)
        requires
            sorted[0] <= sorted[l1],
            den > 0,
    ;
    assert(sorted[u2] * den <= sorted[n - 1] * den) by (nonlinear_arith)
        requires
            sorted[u2] <= sorted[n - 1],
            den > 0,
    ;
    if u1 <= l2 {
        assert(sorted[u1] <= sorted[l2]);
        assert(sorted[u1] * den <= sorted[l2] * den) by (nonlinear_arith)
            requires
                sorted[u1] <= sorted[l2],
                den > 0,
        ;
    } else {
        let i1 = (n - 1) * q1;
        let i2 = (n - 1) * q2;
        assert(i1 <= i2) by (nonlinear_arith)
            requires
                n >= 1,
                q1 <= q2,
                i1 == (n - 1) * q1,
                i2 == (n - 1) * q2,
        ;
        assert(i1 >= 0) by (nonlinear_arith)
            requires
                n >= 1,
                q1 >= 0,
                i1 == (n - 1) * q1,
        ;
        assert(i2 <= (n - 1) * den) by (nonlinear_arith)
            requires
                n >= 1,
                q2 <= den,
                i2 == (n - 1) * q2,
        ;
        assert(0 <= i1 / den <= i2 / den <= n - 1) by (nonlinear_arith)
            requires
                0 <= i1 <= i2 <= (n - 1) * den,
                den > 0,
        ;
        assert(l1 == i1 / den);
        assert(l2 == i2 / den);
        assert(u1 == if i1 % den == 0 { i1 / den } else { i1 / den + 1 });
        assert(l1 <= l2);
        assert(u1 == l1 + 1);
        assert(l1 == l2);
        assert(f1 == i1 % den && f2 == i2 % den);
        assert(i1 / den == i2 / den);
        assert(f1 <= f2) by (nonlinear_arith)
            requires
                0 <= i1 <= i2,
                den > 0,
                i1 / den == i2 / den,
                f1 == i1 % den,
                f2 == i2 % den,
        ;
        assert(u1 == u2);
        assert(sorted[l1] <= sorted[u1]);
        assert(v1 <= v2) by (nonlinear_arith)
            requires
                v1 == sorted[l1] * den + f1 * (sorted[u1] - sorted[l1]),
                v2 == sorted[l1] * den + f2 * (sorted[u1] - sorted[l1]),
                f1 <= f2,
                sorted[l1] <= sorted[u1],
        ;
    }
}

/// The interpolated percentile lies between its two bracketing values.
proof fn lemma_percentile_bracket(sorted: Seq<int>, q: int, den: int)
    requires
        sorted.len() > 0,
        sorted.len() <= usize::MAX,
        is_sorted(sorted),
        den > 0,
        den <= u64::MAX,
        0 <= q <= den,
    ensures
        ({
            let p = percentile_position_of(sorted.len() as int, q, den);
            &&& 0 <= p.lower <= p.upper < sorted.len()
            &&& p.fraction_den == den
            &&& 0 <= p.fraction_num < den
            &&& sorted[p.lower as int] * den <= scaled_percentile(sorted, p)
            &&& scaled_percentile(sorted, p) <= sorted[p.upper as int] * den
        }),
{
    let n = sorted.len() as int;
    lemma_percentile_monotone(n, q, q, den);
    let p = percentile_position_of(n, q, den);
    let idx = (n - 1) * q;
    assert(idx >= 0) by (nonlinear_arith)
        requires
            n >= 1,
            q >= 0,
            idx == (n - 1) * q,
    ;
    assert(0 <= idx % den < den);
    let l = p.lower as int;
    let u = p.upper as int;
    let f = p.fraction_num as int;
    assert(f == idx % den);
    assert(sorted[l] <= sorted[u]);
    assert(sorted[l] * den <= sorted[l] * den + f * (sorted[u] - sorted[l])) by (nonlinear_arith)
        requires
            f >= 0,
            sorted[l] <= sorted[u],
    ;
    assert(sorted[l] * den + f * (sorted[u] - sorted[l]) <= sorted[u] * den) by (nonlinear_arith)
        requires
            0 <= f < den,
            sorted[l] <= sorted[u],
    ;
}

/// Most tapers a taper set is built from.
pub const MAX_TAPERS: usize = 10;

/// Column of the weight table for the concentration parameter `c_tenths / 10`:
/// the table's columns run from 1.0 up in steps of 0.1, and a parameter
/// outside them takes the nearest column.
pub open spec fn taper_column_of(c_tenths: int, columns: int) -> int {
    if c_tenths <= 10 {
        0
    } else if c_tenths - 10 >= columns {
        columns - 1
    } else {
        c_tenths - 10
    }
}

pub fn taper_column(c_tenths: u64, columns: usize) -> (r: usize)
    requires
        columns > 0,
    ensures
        r == taper_column_of(c_tenths as int, columns as int),
        r < columns,
{
    if c_tenths <= 10 {
        0
    } else if c_tenths - 10 >= columns as u64 {
        columns - 1
    } else {
        (c_tenths - 10) as usize
    }
}

/// Indices of the weights kept among the first `n` of a column: those that
/// are non-zero, at most `MAX_TAPERS` of them, in order.
pub open spec fn retained_weights_of(nonzero: Seq<bool>, n: int) -> Seq<usize>
    decreases n,
{
    if n <= 0 {
        Seq::empty()
    } else {
        let prev = retained_weights_of(nonzero, n - 1);
        if nonzero[n - 1] && prev.len() < MAX_TAPERS {
            prev.push((n - 1) as usize)
        } else {
            prev
        }
    }
}

proof fn lemma_retained_len(nonzero: Seq<bool>, n: int)
    ensures
        retained_weights_of(nonzero, n).len() <= MAX_TAPERS,
    decreases n,
{
    if n > 0 {
        lemma_retained_len(nonzero, n - 1);
    }
}

/// Which weights of a table column make up a taper set, given which of them
/// are non-zero: the first `MAX_TAPERS` non-zero ones.
pub fn retained_weight_indices(nonzero: &Vec<bool>) -> (r: Vec<usize>)
    ensures
        r@ == retained_weights_of(nonzero@, nonzero@.len() as int),
        r@.len() <= MAX_TAPERS,
{
    let mut out: Vec<usize> = Vec::new();
    let mut i: usize = 0;
    while i < nonzero.len()
        invariant
            i <= nonzero@.len(),
            out@ == retained_weights_of(nonzero@, i as int),
        decreases nonzero@.len() - i,
    {
        proof {
            lemma_retained_len(nonzero@, i as int);
        }
        if nonzero[i] && out.len() < MAX_TAPERS {
            out.push(i);
        }
        i += 1;
    }
    proof {
        lemma_retained_len(nonzero@, i as int);
    }
    out
}

/// Empirical half-width, in tenths, of a set of `k` Hermite tapers; the
/// sample axis is scaled by `n` over it. 1.0 outside the tabulated `1 ..= 10`.
pub open spec fn half_width_tenths_of(k: int) -> u64 {
    if k == 1 {
        54
    } else if k == 2 {
        60
    } else if k == 3 {
        73
    } else if k == 4 {
        81
    } else if k == 5 {
        87
    } else if k == 6 {
        93
    } else if k == 7 {
        98
    } else if k == 8 {
        103
    } else if k == 9 {
        109
    } else if k == 10 {
        112
    } else {
        10
    }
}

pub fn half_width_tenths(k: usize) -> (r: u64)
    ensures
        r == half_width_tenths_of(k as int),
{
    if k == 1 {
        54
    } else if k == 2 {
        60
    } else if k == 3 {
        73
    } else if k == 4 {
        81
    } else if k == 5 {
        87
    } else if k == 6 {
        93
    } else if k == 7 {
        98
    } else if k == 8 {
        103
    } else if k == 9 {
        109
    } else if k == 10 {
        112
    } else {
        10
    }
}

} // verus!
