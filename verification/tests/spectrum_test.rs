use whisperme::spectrum::{FFT_SIZE, FREQ_BANDS};

const SAMPLE_RATE: u32 = 16000;

#[test]
fn test_freq_bands_coverage() {
    for window in FREQ_BANDS.windows(2) {
        assert!(
            window[0].1 <= window[1].0,
            "Bands should not overlap: {:?} and {:?}",
            window[0],
            window[1]
        );
    }

    assert!(
        FREQ_BANDS[FREQ_BANDS.len() - 1].1 as f32 <= (SAMPLE_RATE / 2) as f32,
        "Last band should not exceed Nyquist frequency"
    );
}

#[test]
fn bands_are_the_documented_limits() {
    assert_eq!(FFT_SIZE, 256);
    assert_eq!(FREQ_BANDS, [(62, 250), (250, 500), (500, 2000), (2000, 4000), (4000, 8000)]);
    for (low, high) in FREQ_BANDS {
        assert!(low < high);
    }
}
