use serialimage::{OptimumExposureConfig, SerialImageError};

fn ramp(n: u16) -> Vec<u16> {
    (0..n).collect()
}

#[test]
fn config_requires_ordered_exposure_bounds() {
    assert!(OptimumExposureConfig::new(50000, 32767, 3276, 0, 1000, 1000, 2).is_none());
    assert!(OptimumExposureConfig::new(50000, 32767, 3276, 0, 2000, 1000, 2).is_none());
    assert!(OptimumExposureConfig::new(50000, 32767, 3276, 0, 1000, 2000, 2).is_some());
}

#[test]
fn validation_rejects_zero_target() {
    let cfg = OptimumExposureConfig::new(50000, 0, 3276, 0, 1000, 10_000_000, 2).unwrap();
    let r = cfg.find_optimum_exposure(ramp(16), 100_000, 1);
    assert_eq!(r.unwrap_err(), SerialImageError::ConfigValidation);
}

#[test]
fn validation_rejects_target_above_full_scale() {
    let cfg = OptimumExposureConfig::new(50000, 65536, 3276, 0, 1000, 10_000_000, 2).unwrap();
    let r = cfg.find_optimum_exposure(ramp(16), 100_000, 1);
    assert_eq!(r.unwrap_err(), SerialImageError::ConfigValidation);
}

#[test]
fn validation_rejects_out_of_range_uncertainty_and_percentile() {
    let cfg = OptimumExposureConfig::new(50000, 32767, 0, 0, 1000, 10_000_000, 2).unwrap();
    assert_eq!(
        cfg.find_optimum_exposure(ramp(16), 100_000, 1).unwrap_err(),
        SerialImageError::ConfigValidation
    );
    let cfg = OptimumExposureConfig::new(100_001, 32767, 3276, 0, 1000, 10_000_000, 2).unwrap();
    assert_eq!(
        cfg.find_optimum_exposure(ramp(16), 100_000, 1).unwrap_err(),
        SerialImageError::ConfigValidation
    );
}

#[test]
fn validation_rejects_an_empty_population() {
    let cfg = OptimumExposureConfig::new(50000, 32767, 3276, 0, 1000, 10_000_000, 2).unwrap();
    assert_eq!(
        cfg.find_optimum_exposure(Vec::new(), 100_000, 1).unwrap_err(),
        SerialImageError::ConfigValidation
    );
}

#[test]
fn validation_rejects_exclusion_beyond_population() {
    let cfg = OptimumExposureConfig::new(50000, 32767, 3276, 17, 1000, 10_000_000, 2).unwrap();
    assert_eq!(
        cfg.find_optimum_exposure(ramp(16), 100_000, 1).unwrap_err(),
        SerialImageError::ConfigValidation
    );
}

#[test]
fn full_percentile_selects_the_maximum_sample() {
    // Percentile of exactly one, nothing excluded: the control sample is
    // the population maximum (five), so the estimate is 10 * 60000 / 5.
    let cfg = OptimumExposureConfig::new(100_000, 60000, 1, 0, 1, 10_000_000, 1).unwrap();
    let samples: Vec<u16> = vec![2, 5, 1, 4, 3];
    let (exp, bin) = cfg.find_optimum_exposure(samples, 10, 1).unwrap();
    assert_eq!(exp, 120_000);
    assert_eq!(bin, 1);
}

#[test]
fn dead_band_returns_inputs_unchanged() {
    // The percentile sample (32000) is within 1000 of the target 32767?
    // No: 767 < 1000, so the controller must not move anything, not even
    // a bin that exceeds the ceiling.
    let cfg = OptimumExposureConfig::new(100_000, 32767, 1000, 0, 1000, 10_000_000, 4).unwrap();
    let samples: Vec<u16> = vec![100, 200, 32000];
    let (exp, bin) = cfg.find_optimum_exposure(samples, 123_456, 7).unwrap();
    assert_eq!(exp, 123_456);
    assert_eq!(bin, 7);
}

#[test]
fn exposure_clamps_to_the_minimum() {
    // Estimate 200 * 100 / 50000 rounds to zero, far below the floor.
    let cfg = OptimumExposureConfig::new(100_000, 100, 1, 0, 100_000, 10_000_000, 1).unwrap();
    let samples: Vec<u16> = vec![50_000; 8];
    let (exp, bin) = cfg.find_optimum_exposure(samples, 200, 1).unwrap();
    assert_eq!(exp, 100_000);
    assert_eq!(bin, 1);
}

#[test]
fn exposure_clamps_to_the_maximum() {
    // Estimate 10_000_000 * 60000 / 1 dwarfs the ceiling.
    let cfg = OptimumExposureConfig::new(100_000, 60000, 1, 0, 1000, 10_000_000, 1).unwrap();
    let samples: Vec<u16> = vec![1; 8];
    let (exp, bin) = cfg.find_optimum_exposure(samples, 10_000_000, 1).unwrap();
    assert_eq!(exp, 10_000_000);
    assert_eq!(bin, 1);
}

#[test]
fn binning_halves_once_and_scales_exposure_fourfold() {
    // Estimate 100000 * 30000 / 60000 = 50000, well below the ceiling at
    // bin four: one halving to bin two, exposure scaled by four.
    let cfg = OptimumExposureConfig::new(100_000, 30000, 100, 0, 1000, 10_000_000, 4).unwrap();
    let samples: Vec<u16> = vec![10, 20, 60000];
    let (exp, bin) = cfg.find_optimum_exposure(samples, 100_000, 4).unwrap();
    assert_eq!(exp, 200_000);
    assert_eq!(bin, 2);
}

#[test]
fn binning_doubles_when_the_estimate_overshoots() {
    // Estimate 8_000_000 * 60000 / 1500 = 320_000_000 over a ceiling of
    // 10_000_000: two doublings (bin 1 to 4) divide it to 20_000_000,
    // still over, so the exposure then clamps to the ceiling.
    let cfg = OptimumExposureConfig::new(100_000, 60000, 100, 0, 1000, 10_000_000, 4).unwrap();
    let samples: Vec<u16> = vec![1500; 4];
    let (exp, bin) = cfg.find_optimum_exposure(samples, 8_000_000, 1).unwrap();
    assert_eq!(exp, 10_000_000);
    assert_eq!(bin, 4);
}

#[test]
fn exclusion_rereads_below_the_band() {
    // Percentile zero lands at index zero, inside the excluded band of
    // three, so the read moves to index n - 1 - 3 = 6.
    let cfg = OptimumExposureConfig::new(0, 30000, 100, 3, 1000, 10_000_000, 1).unwrap();
    let samples: Vec<u16> = vec![10, 20, 30, 40, 50, 60, 15000, 80, 90, 100];
    // Sorted, index 6 holds 90? Sorted: 10,20,30,40,50,60,80,90,100,15000;
    // index 6 holds 80, so the estimate is 100_000 * 30000 / 80.
    let (exp, bin) = cfg.find_optimum_exposure(samples, 100_000, 1).unwrap();
    assert_eq!(exp, 10_000_000.min(100_000u64 * 30000 / 80));
    assert_eq!(bin, 1);
}

#[test]
fn controller_sorts_its_input() {
    // The 90th percentile of eleven samples sits at sorted index nine;
    // the samples arrive shuffled and the value there is 6000, so the
    // estimate is 100_000 * 32767 / 6000 = 546_116 microseconds.
    let cfg = OptimumExposureConfig::new(90_000, 32767, 3276, 0, 1000, 10_000_000, 1).unwrap();
    let samples: Vec<u16> = vec![6000, 40, 10, 20, 30, 50, 60, 70, 80, 90, 7000];
    let (exp, bin) = cfg.find_optimum_exposure(samples, 100_000, 1).unwrap();
    assert_eq!(exp, 546_116);
    assert_eq!(bin, 1);
}
