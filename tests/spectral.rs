use noctig::spectral::{
    band_bins, fold_factor, half_width_tenths, percentile_position, plan_spectrogram,
    retained_weight_indices, segment_centres, taper_column, trim_positions, SpectralError,
    SpectrogramLayout, TRIM_DENOMINATOR, TRIM_NUMERATOR,
};

#[test]
fn ten_second_single_segment_layout() {
    let layout = plan_spectrogram(1000, 1000).unwrap();
    assert_eq!(layout, SpectrogramLayout { nperseg: 1000, segment_count: 1, bin_count: 501 });
    let fs = 100.0_f64;
    let freqs: Vec<f64> = (0..layout.bin_count).map(|k| k as f64 * fs / 1000.0).collect();
    assert_eq!(freqs[0], 0.0);
    assert!((freqs[500] - 50.0).abs() < 1e-12);
    assert!((freqs[1] - 0.1).abs() < 1e-12);
    let centres = segment_centres(&layout, 1000);
    assert_eq!(centres, vec![500]);
    let times: Vec<f64> = centres.iter().map(|c| *c as f64 / fs).collect();
    assert_eq!(times, vec![5.0]);
}

#[test]
fn trailing_remainder_is_dropped() {
    let layout = plan_spectrogram(2550, 1000).unwrap();
    assert_eq!(layout.segment_count, 2);
    assert_eq!(segment_centres(&layout, 2550), vec![500, 1500]);
    let odd = plan_spectrogram(9, 3).unwrap();
    assert_eq!(segment_centres(&odd, 9), vec![1, 4, 7]);
    assert_eq!(odd.bin_count, 2);
}

#[test]
fn degenerate_inputs_fail() {
    assert_eq!(plan_spectrogram(0, 10), Err(SpectralError::EmptySignal));
    assert_eq!(plan_spectrogram(10, 0), Err(SpectralError::EmptyWindow));
    assert_eq!(plan_spectrogram(10, 11), Err(SpectralError::WindowLongerThanSignal));
}

#[test]
fn fold_keeps_dc_and_nyquist() {
    assert_eq!(fold_factor(0, 1000), 1);
    assert_eq!(fold_factor(1, 1000), 2);
    assert_eq!(fold_factor(499, 1000), 2);
    assert_eq!(fold_factor(500, 1000), 1);
    assert_eq!(fold_factor(499, 999), 2);
}

#[test]
fn display_band_at_100_hz() {
    let bins = band_bins(1000, 100, 1);
    assert_eq!(bins.first(), Some(&5));
    assert_eq!(bins.last(), Some(&250));
    assert_eq!(bins.len(), 246);
    let thirty_s = band_bins(3000, 100, 1);
    assert_eq!(thirty_s.first(), Some(&15));
    assert_eq!(thirty_s.last(), Some(&750));
    let fractional = band_bins(512, 256_000, 1000);
    assert_eq!(fractional.first(), Some(&1));
    assert_eq!(fractional.last(), Some(&50));
}

#[test]
fn trimmed_percentile_positions() {
    let (low, high) = trim_positions(100, TRIM_NUMERATOR, TRIM_DENOMINATOR);
    assert_eq!((low.lower, low.upper, low.fraction_num, low.fraction_den), (2, 3, 475, 1000));
    assert_eq!((high.lower, high.upper, high.fraction_num), (96, 97, 525));
    let (one_low, one_high) = trim_positions(1, TRIM_NUMERATOR, TRIM_DENOMINATOR);
    assert_eq!((one_low.lower, one_low.upper, one_high.lower, one_high.upper), (0, 0, 0, 0));
    let exact = percentile_position(5, 1, 2);
    assert_eq!((exact.lower, exact.upper, exact.fraction_num), (2, 2, 0));
}

#[test]
fn percentiles_lie_in_the_data_and_in_order() {
    let mut data = vec![3.0_f64, -1.0, 7.5, 2.0, 2.0, 10.0, 0.5];
    data.sort_by(|a, b| a.partial_cmp(b).unwrap());
    let value = |p: &noctig::spectral::PercentilePosition| {
        let f = p.fraction_num as f64 / p.fraction_den as f64;
        data[p.lower] + f * (data[p.upper] - data[p.lower])
    };
    let (low, high) = trim_positions(data.len(), TRIM_NUMERATOR, TRIM_DENOMINATOR);
    let (lo, hi) = (value(&low), value(&high));
    assert!(lo <= hi);
    assert!(data[0] <= lo && hi <= data[data.len() - 1]);
}

#[test]
fn taper_table_decisions() {
    assert_eq!(taper_column(200, 500), 190);
    assert_eq!(taper_column(5, 500), 0);
    assert_eq!(taper_column(9000, 500), 499);
    let mask = vec![true, false, true, true, true, true, true, true, true, true, true, true, true];
    assert_eq!(retained_weight_indices(&mask), vec![0, 2, 3, 4, 5, 6, 7, 8, 9, 10]);
    assert_eq!(retained_weight_indices(&vec![false, true]), vec![1]);
    assert_eq!(half_width_tenths(1), 54);
    assert_eq!(half_width_tenths(10), 112);
    assert_eq!(half_width_tenths(11), 10);
}
