//! Frequency bands of the recording indicator's level bars.
//!
//! The indicator shows one bar per band; the FFT and the decibel arithmetic
//! run in the application, on these band limits.

use vstd::prelude::*;

verus! {

/// Number of samples per spectrum.
pub const FFT_SIZE: usize = 256;

/// Number of frequency bands (and bars).
pub const BAND_COUNT: usize = 5;

/// The frequency bands in Hz, `[low, high)`, lowest first.
pub const FREQ_BANDS: [(u32, u32); 5] = [
    (62, 250),
    (250, 500),
    (500, 2000),
    (2000, 4000),
    (4000, 8000),
];

/// The bands as a sequence.
pub open spec fn bands_spec() -> Seq<(u32, u32)> {
    seq![(62u32, 250u32), (250u32, 500u32), (500u32, 2000u32), (2000u32, 4000u32), (4000u32, 8000u32)]
}

/// The bands are ordered and do not overlap, each is non-empty, and the last
/// ends at or below the Nyquist frequency of 16 kHz audio.
pub proof fn lemma_bands_well_formed()
    ensures
        FREQ_BANDS@ == bands_spec(),
        forall|i: int| 0 <= i < 5 ==> (#[trigger] bands_spec()[i]).0 < bands_spec()[i].1,
        forall|i: int| 0 <= i < 4 ==> (#[trigger] bands_spec()[i]).1 <= bands_spec()[i + 1].0,
        bands_spec()[4].1 <= 16000int / 2,
{
    assert(FREQ_BANDS@ =~= bands_spec());
}

} // verus!
