//! Harmonic pitch class profile: a histogram of spectral energy over the
//! pitch classes of one octave.
//!
//! Here stands every decision that the profile takes: which size and window
//! are in force, which harmonics share a pitch class, which band a spectral
//! peak feeds, which bins it reaches and in what order, and when a band is
//! rescaled. The real arithmetic between those decisions is the caller's: it
//! hands in what it computed as bit patterns, and is told what to add where.
//!
//! A profile is made in these steps.
//!
//! 1. `adjust_input` brings the size, the window and the input into range.
//! 2. The caller evaluates the overtones. Overtone `i`, counted from 0, is
//!    harmonic `i + 2`: its offset is `12 * log2(i + 2)` semitones, less 12 as
//!    long as it is not below `12 - 1e-5`; its weight is 1 over the larger
//!    of 1 and a twenty-fourth of the offset before it was reduced; its
//!    bounds are the reduced offset less and plus `1e-5`.
//!    `init_harmonic_peaks` builds the table from them. The weight of an
//!    entry is the sum of the weights of its overtones, in their order; the
//!    fundamental weighs 1.
//! 3. The caller evaluates a `Spot` for every peak and every entry of the
//!    table, and `compute` plans what is added to which bin of which band.
//! 4. The caller carries the plan out. Each `Term` adds the squared
//!    magnitude of its peak times the squared weight of its entry, and with
//!    the window times the kernel: the squared cosine of pi times the
//!    distance of the peak's position from the term's, in windows.
//! 5. The caller takes the steps of `stages` in turn: it divides a band by
//!    what `normalize` gives, adds the low band to the high band, and for
//!    the contrast curve replaces each value `v` by the squared sine of
//!    `v * pi / 2`, times the square of that over 0.6 where
//!    `below_contrast_threshold` says so; and it stores the result, which
//!    `store` takes where it has the size in force.

use vstd::prelude::*;
use crate::double::Double;

verus! {

/// 1.0
pub const ONE: u64 = 0x3FF0_0000_0000_0000;

/// 0.5
pub const HALF: u64 = 0x3FE0_0000_0000_0000;

/// 12.0 / 36.0
pub const THIRD: u64 = 0x3FD5_5555_5555_5555;

/// 44100.0
pub const DEFAULT_SAMPLE_RATE: u64 = 0x40E5_8880_0000_0000;

/// 440.0
pub const DEFAULT_REFERENCE_FREQUENCY: u64 = 0x407B_8000_0000_0000;

/// 500.0
pub const DEFAULT_BAND_SPLIT_FREQUENCY: u64 = 0x407F_4000_0000_0000;

/// 5000.0
pub const DEFAULT_MAX_FREQUENCY: u64 = 0x40B3_8800_0000_0000;

/// 40.0
pub const DEFAULT_MIN_FREQUENCY: u64 = 0x4044_0000_0000_0000;

/// Harmonic pitch class profile of a list of spectral peaks.
pub struct HPCP {
    /// Input: frequencies of the spectral peaks, in hertz.
    pub frequencies: Vec<Double>,
    /// Input: magnitudes of the spectral peaks.
    pub magnitudes: Vec<Double>,
    /// Output: the resulting profile.
    pub hpcp_data: Option<Vec<Double>>,
    /// The size of the profile; 12, 24 or 36 once adjusted.
    pub size: usize,
    /// Sampling rate of the audio signal, in hertz.
    pub sample_rate: Double,
    /// The frequency of pitch class 0.
    pub reference_frequency: Double,
    /// The frequency that parts the low band from the high band.
    pub band_split_frequency: Double,
    /// The highest frequency that contributes.
    pub max_frequency: Double,
    /// The lowest frequency that contributes.
    pub min_frequency: Double,
    /// The number of overtones that are folded in beside the fundamental.
    pub harmonics: usize,
    /// Whether a peak is spread over a window of bins by a squared cosine,
    /// or put into the one nearest bin.
    pub weighting: bool,
    /// The width of that window, in semitones.
    pub weighting_window_size: Double,
    /// Whether the bands and the profile are rescaled to a peak of 1.
    pub normalized: bool,
    /// Whether the contrast curve is applied to the rescaled profile.
    pub nonlinear_post: bool,
}

/// The profile size in force for a requested size: the smallest of 12, 24
/// and 36 that is not below it, and 36 where there is none.
pub open spec fn snapped_size(size: int) -> int {
    if size <= 12 {
        12
    } else if size <= 24 {
        24
    } else {
        36
    }
}

/// The width of one bin in semitones, `12 / size`, for a size in force.
pub open spec fn bin_width(size: int) -> Double {
    if size <= 12 {
        Double { bits: ONE }
    } else if size <= 24 {
        Double { bits: HALF }
    } else {
        Double { bits: THIRD }
    }
}

/// The larger of two numbers; the second where they do not compare.
pub open spec fn larger(a: Double, b: Double) -> Double {
    if a.spec_gt(b) {
        a
    } else {
        b
    }
}

/// The largest of the first `n` values and zero, found from left to right:
/// a value takes the lead only where it is greater than the leader.
pub open spec fn leader(values: Seq<Double>, n: int) -> Double
    decreases n,
{
    if n <= 0 {
        Double { bits: 0 }
    } else {
        let before = leader(values, n - 1);
        if values[n - 1].spec_gt(before) {
            values[n - 1]
        } else {
            before
        }
    }
}

/// The length that two peak sequences are cut to: that of the shorter.
pub open spec fn aligned_len(frequencies: int, magnitudes: int) -> int {
    if frequencies < magnitudes {
        frequencies
    } else {
        magnitudes
    }
}

/// One overtone of the fundamental, as its pitch class was evaluated: the
/// offset in semitones, reduced into one octave, and the two offsets that
/// lie the matching tolerance below and above it.
#[derive(Clone, Copy, Debug)]
pub struct Overtone {
    /// The offset of the pitch class from the fundamental, in semitones.
    pub semitone: Double,
    /// The offset less the tolerance.
    pub below: Double,
    /// The offset plus the tolerance.
    pub above: Double,
}

/// The harmonic peak table: the pitch classes that the fundamental and its
/// overtones fall on, each held once, and for every overtone the entry that
/// it adds its weight to. It is made anew for every profile.
pub struct HarmonicTable {
    /// The entries in the order in which they were opened. The first is the
    /// fundamental; every other is the overtone that opened it.
    pub peaks: Vec<Overtone>,
    /// For each overtone, in order, the index of its entry in `peaks`.
    pub slots: Vec<usize>,
}

/// The entry of the fundamental: offset zero.
pub open spec fn fundamental() -> Overtone {
    Overtone { semitone: Double { bits: 0 }, below: Double { bits: 0 }, above: Double { bits: 0 } }
}

/// Whether the pitch class of `entry` is that of `overtone`: its offset lies
/// strictly between the two bounds of the overtone.
pub open spec fn coincides(entry: Overtone, overtone: Overtone) -> bool {
    entry.semitone.spec_gt(overtone.below) && entry.semitone.spec_lt(overtone.above)
}

/// The last of the entries `1..n` that coincides with `overtone`, and 0
/// where none does. The fundamental at index 0 is never looked at.
pub open spec fn slot_within(peaks: Seq<Overtone>, overtone: Overtone, n: int) -> int
    decreases n,
{
    if n <= 1 {
        0
    } else if coincides(peaks[n - 1], overtone) {
        n - 1
    } else {
        slot_within(peaks, overtone, n - 1)
    }
}

/// The entries of the table once the first `n` overtones are folded in: an
/// overtone that coincides with no entry but the fundamental opens a new one.
pub open spec fn peaks_after(overtones: Seq<Overtone>, n: nat) -> Seq<Overtone>
    decreases n,
{
    if n == 0 {
        seq![fundamental()]
    } else {
        let before = peaks_after(overtones, (n - 1) as nat);
        if slot_within(before, overtones[n - 1], before.len() as int) == 0 {
            before.push(overtones[n - 1])
        } else {
            before
        }
    }
}

/// The entry that overtone `i` adds its weight to: the last one that it
/// coincides with, else the one that it opens.
pub open spec fn slot_of(overtones: Seq<Overtone>, i: nat) -> int {
    let before = peaks_after(overtones, i);
    let found = slot_within(before, overtones[i as int], before.len() as int);
    if found == 0 {
        before.len() as int
    } else {
        found
    }
}

/// A slot that was found is an entry other than the fundamental, and that
/// entry coincides with the overtone; where none was found, none coincides.
pub proof fn lemma_slot_within(peaks: Seq<Overtone>, overtone: Overtone, n: int)
    requires
        n <= peaks.len(),
    ensures
        0 <= slot_within(peaks, overtone, n),
        slot_within(peaks, overtone, n) != 0 ==> 1 <= slot_within(peaks, overtone, n) < n
            && coincides(peaks[slot_within(peaks, overtone, n)], overtone),
        slot_within(peaks, overtone, n) == 0 ==> forall|j: int|
            1 <= j < n ==> !coincides(#[trigger] peaks[j], overtone),
    decreases n,
{
    if n > 1 {
        lemma_slot_within(peaks, overtone, n - 1);
    }
}

/// The table begins with the fundamental and never holds more entries than
/// overtones were folded in, and one.
pub proof fn lemma_table_bounded(overtones: Seq<Overtone>, n: nat)
    ensures
        1 <= peaks_after(overtones, n).len() <= n + 1,
        peaks_after(overtones, n)[0] == fundamental(),
    decreases n,
{
    if n > 0 {
        lemma_table_bounded(overtones, (n - 1) as nat);
    }
}

/// No overtone is held twice: of two entries other than the fundamental, the
/// earlier does not coincide with the later.
pub proof fn lemma_table_distinct(overtones: Seq<Overtone>, n: nat, j: int, k: int)
    requires
        1 <= j < k < peaks_after(overtones, n).len(),
    ensures
        !coincides(peaks_after(overtones, n)[j], peaks_after(overtones, n)[k]),
    decreases n,
{
    if n > 0 {
        let before = peaks_after(overtones, (n - 1) as nat);
        lemma_table_bounded(overtones, (n - 1) as nat);
        if k < before.len() {
            lemma_table_distinct(overtones, (n - 1) as nat, j, k);
        } else {
            lemma_slot_within(before, overtones[n - 1], before.len() as int);
        }
    }
}

/// Every overtone adds its weight to an entry of the table that holds it,
/// and never to the fundamental.
pub proof fn lemma_slot_in_table(overtones: Seq<Overtone>, n: nat, i: nat)
    requires
        i < n,
    ensures
        1 <= slot_of(overtones, i) < peaks_after(overtones, n).len(),
    decreases n,
{
    lemma_table_bounded(overtones, i);
    lemma_slot_within(
        peaks_after(overtones, i),
        overtones[i as int],
        peaks_after(overtones, i).len() as int,
    );
    if i + 1 < n {
        lemma_slot_in_table(overtones, (n - 1) as nat, i);
    }
}

/// The two bands that are rescaled apart before they are merged.
#[derive(Clone, Copy, Debug, PartialEq, Eq, Structural)]
pub enum Band {
    /// Peaks below the band split frequency.
    Low,
    /// Peaks at the band split frequency and above.
    High,
}

/// Where one spectral peak stands among the bins, for one entry of the
/// harmonic peak table, as the caller evaluated it.
#[derive(Clone, Copy, Debug)]
pub struct Spot {
    /// The continuous bin position of the peak,
    /// `size * log2(frequency / reference_frequency)`.
    pub position: Double,
    /// The position less half the window, where the window is
    /// `size / 12 * weighting_window_size` bins wide.
    pub lower: Double,
    /// The position plus half the window.
    pub upper: Double,
    /// The frequency of the peak, shifted down by the entry's offset:
    /// `frequency * 2^(-offset / 12)`.
    pub shifted: Double,
}

/// The first bin position of the window of a spot: its lower end, rounded
/// up.
pub open spec fn window_left(spot: Spot) -> int {
    spot.lower.spec_ceil() as int
}

/// The bin position after the last of the window of a spot: one more than
/// its upper end, rounded down.
pub open spec fn window_right(spot: Spot) -> int {
    1 + spot.upper.spec_floor()
}

/// The bin position of a spot that is put into one bin: its position,
/// rounded to the nearest whole number.
pub open spec fn nearest_position(spot: Spot) -> i64 {
    spot.position.spec_round()
}

/// One addition to a band: the energy of `peak`, weighted by entry
/// `harmonic` of the table and by the kernel at bin position `position`,
/// goes into bin `bin`.
#[derive(Clone, Copy, Debug, PartialEq, Eq, Structural)]
pub struct Term {
    /// The bin of the band that receives the energy.
    pub bin: usize,
    /// The index of the spectral peak among the input.
    pub peak: usize,
    /// The index of the entry of the harmonic peak table.
    pub harmonic: usize,
    /// The bin position before it was folded into the octave.
    pub position: i64,
}

/// What is added to the two bands, in the order in which it is added.
pub struct Plan {
    /// The additions to the low band.
    pub low: Vec<Term>,
    /// The additions to the high band.
    pub high: Vec<Term>,
}

/// The bin that a bin position falls into once it is folded into one octave
/// of `size` bins. Positions below zero wrap upwards.
pub open spec fn folded_bin(position: int, size: int) -> int {
    position % size
}

/// The additions that a window of bin positions from `left` up to, not
/// including, `right` makes: one for each position, in rising order, and
/// none where `right` is below `left`.
pub open spec fn window_terms(size: int, peak: int, harmonic: int, left: int, right: int) -> Seq<
    Term,
> {
    if right < left {
        Seq::empty()
    } else {
        Seq::new(
            (right - left) as nat,
            |t: int|
                Term {
                    bin: folded_bin(left + t, size) as usize,
                    peak: peak as usize,
                    harmonic: harmonic as usize,
                    position: (left + t) as i64,
                },
        )
    }
}

/// The additions that one peak makes for one entry of the table. With the
/// window, those of the bin positions from `window_left` up to, not
/// including, `window_right`. Without, the one into the nearest bin, and
/// none where the shifted frequency is zero or below.
pub open spec fn spot_terms(size: int, weighting: bool, peak: int, harmonic: int, spot: Spot) -> Seq<
    Term,
> {
    if weighting {
        window_terms(size, peak, harmonic, window_left(spot), window_right(spot))
    } else if spot.shifted.spec_le(Double { bits: 0 }) {
        Seq::empty()
    } else {
        seq![
            Term {
                bin: folded_bin(nearest_position(spot) as int, size) as usize,
                peak: peak as usize,
                harmonic: harmonic as usize,
                position: nearest_position(spot),
            },
        ]
    }
}

/// The additions that one peak makes for the first `n` entries of the table,
/// entry by entry.
pub open spec fn peak_terms(size: int, weighting: bool, peak: int, spots: Seq<Spot>, n: int) -> Seq<
    Term,
>
    decreases n,
{
    if n <= 0 {
        Seq::empty()
    } else {
        peak_terms(size, weighting, peak, spots, n - 1) + spot_terms(
            size,
            weighting,
            peak,
            n - 1,
            spots[n - 1],
        )
    }
}

/// A profile of `size` bins that holds nothing: every bin is positive zero.
pub open spec fn silence(size: int) -> Seq<Double> {
    Seq::new(size as nat, |i: int| Double { bits: 0 })
}

/// The steps that turn the two bands into the profile.
#[derive(Clone, Copy, Debug, PartialEq, Eq, Structural)]
pub enum Stage {
    /// Each band is divided by its largest value, unless that is zero.
    RescaleBands,
    /// The low band is added to the high band, bin by bin.
    Merge,
    /// The merged profile is divided by its largest value, unless that is
    /// zero.
    RescaleProfile,
    /// The contrast curve is applied to every bin.
    Contrast,
}

/// 0.6, below which the contrast curve lowers a bin once more.
pub const CONTRAST_THRESHOLD: u64 = 0x3FE3_3333_3333_3333;

/// Every addition that one peak makes for one entry of the table goes into a
/// bin of the profile.
pub proof fn lemma_spot_terms_in_profile(
    size: int,
    weighting: bool,
    peak: int,
    harmonic: int,
    spot: Spot,
    i: int,
)
    requires
        0 < size <= usize::MAX,
        0 <= i < spot_terms(size, weighting, peak, harmonic, spot).len(),
    ensures
        spot_terms(size, weighting, peak, harmonic, spot)[i].bin < size,
{
    if weighting {
        assert(0 <= folded_bin(window_left(spot) + i, size) < size) by (nonlinear_arith)
            requires
                0 < size,
        ;
    } else {
        assert(0 <= folded_bin(nearest_position(spot) as int, size) < size) by (nonlinear_arith)
            requires
                0 < size,
        ;
    }
}

/// Every addition that one peak makes goes into a bin of the profile.
pub proof fn lemma_peak_terms_in_profile(
    size: int,
    weighting: bool,
    peak: int,
    spots: Seq<Spot>,
    n: int,
    i: int,
)
    requires
        0 < size <= usize::MAX,
        0 <= i < peak_terms(size, weighting, peak, spots, n).len(),
    ensures
        peak_terms(size, weighting, peak, spots, n)[i].bin < size,
    decreases n,
{
    if n > 0 {
        let before = peak_terms(size, weighting, peak, spots, n - 1);
        if i < before.len() {
            lemma_peak_terms_in_profile(size, weighting, peak, spots, n - 1, i);
        } else {
            lemma_spot_terms_in_profile(
                size,
                weighting,
                peak,
                n - 1,
                spots[n - 1],
                i - before.len(),
            );
        }
    }
}

/// The leader of a band is zero or one of its values, it is no less than
/// zero, and no value of the band is greater. So a band that is divided by
/// its leader holds the quotient of the leader by itself, and nothing above.
pub proof fn lemma_leader_is_greatest(values: Seq<Double>, n: int)
    requires
        0 <= n <= values.len(),
    ensures
        leader(values, n).bits == 0 || exists|i: int|
            0 <= i < n && values[i] == leader(values, n),
        !leader(values, n).spec_is_nan(),
        leader(values, n).spec_ge(Double { bits: 0 }),
        forall|i: int| 0 <= i < n ==> !(#[trigger] values[i]).spec_gt(leader(values, n)),
    decreases n,
{
    if n > 0 {
        lemma_leader_is_greatest(values, n - 1);
        let before = leader(values, n - 1);
        if values[n - 1].spec_gt(before) {
            assert(values[n - 1] == leader(values, n));
        } else if before.bits != 0 {
            let i = choose|i: int| 0 <= i < n - 1 && values[i] == before;
            assert(values[i] == leader(values, n));
        }
    }
}

impl HPCP {
    /// Whether `self` is what `adjust_input` makes of `before`, the output
    /// set aside: the size is the size in force, the window is no narrower
    /// than one bin of that size, the longer input sequence is cut to the
    /// length of the shorter, and every other parameter is kept.
    pub open spec fn adjusts(&self, before: &HPCP) -> bool {
        let peaks = aligned_len(before.frequencies@.len() as int, before.magnitudes@.len() as int);
        &&& self.size == snapped_size(before.size as int)
        &&& self.weighting_window_size == larger(
            before.weighting_window_size,
            bin_width(snapped_size(before.size as int)),
        )
        &&& self.frequencies@ == before.frequencies@.take(peaks)
        &&& self.magnitudes@ == before.magnitudes@.take(peaks)
        &&& self.sample_rate == before.sample_rate
        &&& self.reference_frequency == before.reference_frequency
        &&& self.band_split_frequency == before.band_split_frequency
        &&& self.max_frequency == before.max_frequency
        &&& self.min_frequency == before.min_frequency
        &&& self.harmonics == before.harmonics
        &&& self.weighting == before.weighting
        &&& self.normalized == before.normalized
        &&& self.nonlinear_post == before.nonlinear_post
    }

    /// Whether the output, where there is one, has as many bins as the size
    /// in force says.
    pub open spec fn profile_fits(&self) -> bool {
        self.hpcp_data matches Some(profile) ==> profile@.len() == snapped_size(self.size as int)
    }

    /// Whether `self` holds the input and the parameters of `before`.
    pub open spec fn adjusts_nothing(&self, before: &HPCP) -> bool {
        &&& self.frequencies@ == before.frequencies@
        &&& self.magnitudes@ == before.magnitudes@
        &&& self.size == before.size
        &&& self.sample_rate == before.sample_rate
        &&& self.reference_frequency == before.reference_frequency
        &&& self.band_split_frequency == before.band_split_frequency
        &&& self.max_frequency == before.max_frequency
        &&& self.min_frequency == before.min_frequency
        &&& self.harmonics == before.harmonics
        &&& self.weighting == before.weighting
        &&& self.weighting_window_size == before.weighting_window_size
        &&& self.normalized == before.normalized
        &&& self.nonlinear_post == before.nonlinear_post
    }

    /// The band that a peak of the given frequency feeds: none outside the
    /// range from `min_frequency` to `max_frequency`, the low band below
    /// `band_split_frequency`, the high band from there on.
    pub open spec fn band_of(&self, frequency: Double) -> Option<Band> {
        if frequency.spec_ge(self.min_frequency) && frequency.spec_le(self.max_frequency) {
            if frequency.spec_lt(self.band_split_frequency) {
                Some(Band::Low)
            } else {
                Some(Band::High)
            }
        } else {
            None
        }
    }

    /// The additions to `band` that the first `n` peaks make, peak by peak.
    /// `spots[k]` holds the spots of peak `k`, one for each entry of the
    /// harmonic peak table.
    pub open spec fn band_terms(&self, band: Band, spots: Seq<Vec<Spot>>, n: int) -> Seq<Term>
        decreases n,
    {
        if n <= 0 {
            Seq::empty()
        } else {
            let before = self.band_terms(band, spots, n - 1);
            if self.band_of(self.frequencies@[n - 1]) == Some(band) {
                before + peak_terms(
                    snapped_size(self.size as int),
                    self.weighting,
                    n - 1,
                    spots[n - 1]@,
                    spots[n - 1]@.len() as int,
                )
            } else {
                before
            }
        }
    }

    /// The steps from the bands to the profile, in order. The bands are
    /// always merged; they and the merged profile are rescaled only where
    /// `normalized` is set, and only then, and where `nonlinear_post` is set,
    /// the contrast curve follows.
    pub open spec fn spec_stages(&self) -> Seq<Stage> {
        if !self.normalized {
            seq![Stage::Merge]
        } else if !self.nonlinear_post {
            seq![Stage::RescaleBands, Stage::Merge, Stage::RescaleProfile]
        } else {
            seq![Stage::RescaleBands, Stage::Merge, Stage::RescaleProfile, Stage::Contrast]
        }
    }

    /// A profile with the given parameters, and with no input and no output.
    pub fn pynew(
        size: usize,
        sample_rate: Double,
        reference_frequency: Double,
        band_split_frequency: Double,
        max_frequency: Double,
        min_frequency: Double,
        harmonics: usize,
        weighting: bool,
        weighting_window_size: Double,
        normalized: bool,
        nonlinear_post: bool,
    ) -> (r: HPCP)
        ensures
            r.frequencies@ == Seq::<Double>::empty(),
            r.magnitudes@ == Seq::<Double>::empty(),
            r.hpcp_data is None,
            r.size == size,
            r.sample_rate == sample_rate,
            r.reference_frequency == reference_frequency,
            r.band_split_frequency == band_split_frequency,
            r.max_frequency == max_frequency,
            r.min_frequency == min_frequency,
            r.harmonics == harmonics,
            r.weighting == weighting,
            r.weighting_window_size == weighting_window_size,
            r.normalized == normalized,
            r.nonlinear_post == nonlinear_post,
    {
        HPCP {
            frequencies: Vec::new(),
            magnitudes: Vec::new(),
            hpcp_data: None,
            size,
            sample_rate,
            reference_frequency,
            band_split_frequency,
            max_frequency,
            min_frequency,
            harmonics,
            weighting,
            weighting_window_size,
            normalized,
            nonlinear_post,
        }
    }

    /// A profile with the default parameters: twelve bins, the reference at
    /// 440 Hz, the bands parted at 500 Hz, peaks from 40 Hz to 5000 Hz, no
    /// overtones, a cosine window of one semitone, rescaled, no contrast curve.
    pub fn new() -> (r: HPCP)
        ensures
            r.frequencies@ == Seq::<Double>::empty(),
            r.magnitudes@ == Seq::<Double>::empty(),
            r.hpcp_data is None,
            r.size == 12,
            r.sample_rate.bits == DEFAULT_SAMPLE_RATE,
            r.reference_frequency.bits == DEFAULT_REFERENCE_FREQUENCY,
            r.band_split_frequency.bits == DEFAULT_BAND_SPLIT_FREQUENCY,
            r.max_frequency.bits == DEFAULT_MAX_FREQUENCY,
            r.min_frequency.bits == DEFAULT_MIN_FREQUENCY,
            r.harmonics == 0,
            r.weighting,
            r.weighting_window_size.bits == ONE,
            r.normalized,
            !r.nonlinear_post,
    {
        HPCP::pynew(
            12,
            Double::from_bits(DEFAULT_SAMPLE_RATE),
            Double::from_bits(DEFAULT_REFERENCE_FREQUENCY),
            Double::from_bits(DEFAULT_BAND_SPLIT_FREQUENCY),
            Double::from_bits(DEFAULT_MAX_FREQUENCY),
            Double::from_bits(DEFAULT_MIN_FREQUENCY),
            0,
            true,
            Double::from_bits(ONE),
            true,
            false,
        )
    }

    /// Replaces each input sequence for which a new one is given.
    pub fn pycompute(&mut self, frequencies: Option<Vec<Double>>, magnitudes: Option<Vec<Double>>)
        ensures
            final(self).frequencies@ == match frequencies {
                Some(given) => given@,
                None => old(self).frequencies@,
            },
            final(self).magnitudes@ == match magnitudes {
                Some(given) => given@,
                None => old(self).magnitudes@,
            },
            final(self).hpcp_data == old(self).hpcp_data,
            final(self).size == old(self).size,
            final(self).sample_rate == old(self).sample_rate,
            final(self).reference_frequency == old(self).reference_frequency,
            final(self).band_split_frequency == old(self).band_split_frequency,
            final(self).max_frequency == old(self).max_frequency,
            final(self).min_frequency == old(self).min_frequency,
            final(self).harmonics == old(self).harmonics,
            final(self).weighting == old(self).weighting,
            final(self).weighting_window_size == old(self).weighting_window_size,
            final(self).normalized == old(self).normalized,
            final(self).nonlinear_post == old(self).nonlinear_post,
    {
        if let Some(given) = frequencies {
            self.frequencies = given;
        }
        if let Some(given) = magnitudes {
            self.magnitudes = given;
        }
    }

    /// The profile size in force for this configuration: 12, 24 or 36.
    pub fn effective_size(&self) -> (r: usize)
        ensures
            r == snapped_size(self.size as int),
            r == 12 || r == 24 || r == 36,
    {
        if self.size <= 12 {
            12
        } else if self.size <= 24 {
            24
        } else {
            36
        }
    }

    /// The larger of two numbers; the second where they do not compare.
    pub fn maxf(a: Double, b: Double) -> (r: Double)
        ensures
            r == larger(a, b),
    {
        if a.gt(b) {
            a
        } else {
            b
        }
    }

    /// Brings the configuration and the input into range. The size becomes
    /// the size in force; the window becomes no narrower than one bin of that
    /// size; of the two input sequences the longer is cut to the length of
    /// the shorter. Nothing else changes.
    pub fn adjust_input(&mut self)
        ensures
            final(self).adjusts(old(self)),
            final(self).hpcp_data == old(self).hpcp_data,
    {
        self.size = self.effective_size();
        let narrowest = if self.size <= 12 {
            Double::from_bits(ONE)
        } else if self.size <= 24 {
            Double::from_bits(HALF)
        } else {
            Double::from_bits(THIRD)
        };
        self.weighting_window_size = HPCP::maxf(self.weighting_window_size, narrowest);
        let f_l = self.frequencies.len();
        let m_l = self.magnitudes.len();
        if f_l > m_l {
            self.frequencies.truncate(m_l);
        } else if m_l > f_l {
            self.magnitudes.truncate(f_l);
        }
        assert(self.frequencies@ =~= old(self).frequencies@.take(
            aligned_len(old(self).frequencies@.len() as int, old(self).magnitudes@.len() as int),
        ));
        assert(self.magnitudes@ =~= old(self).magnitudes@.take(
            aligned_len(old(self).frequencies@.len() as int, old(self).magnitudes@.len() as int),
        ));
    }

    /// The last entry of `peaks` but the fundamental that coincides with
    /// `overtone`, and 0 where there is none.
    fn find_slot(peaks: &Vec<Overtone>, overtone: Overtone) -> (r: usize)
        ensures
            r == slot_within(peaks@, overtone, peaks@.len() as int),
    {
        let mut r: usize = 0;
        let mut j: usize = 1;
        while j < peaks.len()
            invariant
                1 <= j,
                j <= peaks.len() || peaks.len() == 0,
                r == slot_within(peaks@, overtone, if j <= peaks@.len() { j as int } else { 0 }),
            decreases peaks.len() - j,
        {
            let entry = peaks[j];
            if entry.semitone.gt(overtone.below) && entry.semitone.lt(overtone.above) {
                r = j;
            }
            j = j + 1;
        }
        r
    }

    /// Builds the harmonic peak table from the overtones that the caller
    /// evaluated, the second harmonic first. The table begins with the
    /// fundamental. Each overtone in turn joins the last entry that it
    /// coincides with, the fundamental set aside, and opens an entry of its
    /// own where there is none. As many overtones are folded in as
    /// `harmonics` says, and no more than were given.
    pub fn init_harmonic_peaks(&self, overtones: &Vec<Overtone>) -> (table: HarmonicTable)
        ensures
            table.slots@.len() == aligned_len(self.harmonics as int, overtones@.len() as int),
            table.peaks@ == peaks_after(overtones@, table.slots@.len()),
            forall|i: int|
                0 <= i < table.slots@.len() ==> #[trigger] table.slots@[i] == slot_of(
                    overtones@,
                    i as nat,
                ),
            1 <= table.peaks@.len() <= self.harmonics + 1,
            table.peaks@[0] == fundamental(),
            forall|j: int, k: int|
                1 <= j < k < table.peaks@.len() ==> !coincides(
                    #[trigger] table.peaks@[j],
                    #[trigger] table.peaks@[k],
                ),
            forall|i: int|
                0 <= i < table.slots@.len() ==> 1 <= #[trigger] table.slots@[i]
                    < table.peaks@.len(),
    {
        let count = if self.harmonics < overtones.len() {
            self.harmonics
        } else {
            overtones.len()
        };
        let mut peaks: Vec<Overtone> = Vec::new();
        peaks.push(
            Overtone { semitone: Double::zero(), below: Double::zero(), above: Double::zero() },
        );
        let mut slots: Vec<usize> = Vec::new();
        let mut i: usize = 0;
        while i < count
            invariant
                i <= count <= overtones.len(),
                slots@.len() == i,
                peaks@ == peaks_after(overtones@, i as nat),
                forall|t: int|
                    0 <= t < i ==> #[trigger] slots@[t] == slot_of(overtones@, t as nat),
            decreases count - i,
        {
            let overtone = overtones[i];
            let found = HPCP::find_slot(&peaks, overtone);
            if found == 0 {
                slots.push(peaks.len());
                peaks.push(overtone);
            } else {
                slots.push(found);
            }
            i = i + 1;
        }
        proof {
            lemma_table_bounded(overtones@, count as nat);
            assert forall|j: int, k: int| 1 <= j < k < peaks@.len() implies !coincides(
                #[trigger] peaks@[j],
                #[trigger] peaks@[k],
            ) by {
                lemma_table_distinct(overtones@, count as nat, j, k);
            }
            assert forall|i: int| 0 <= i < slots@.len() implies 1 <= #[trigger] slots@[i]
                < peaks@.len() by {
                lemma_slot_in_table(overtones@, count as nat, i as nat);
            }
        }
        HarmonicTable { peaks, slots }
    }

    /// The band that a peak of the given frequency feeds, if any.
    pub fn route(&self, frequency: Double) -> (band: Option<Band>)
        ensures
            band == self.band_of(frequency),
    {
        if frequency.ge(self.min_frequency) && frequency.le(self.max_frequency) {
            if frequency.lt(self.band_split_frequency) {
                Some(Band::Low)
            } else {
                Some(Band::High)
            }
        } else {
            None
        }
    }

    /// The bin of the profile that a bin position falls into.
    pub fn bin_index(&self, position: i64) -> (bin: usize)
        ensures
            bin == folded_bin(position as int, snapped_size(self.size as int)),
            bin < snapped_size(self.size as int),
    {
        let size = self.effective_size();
        let folded: i64 = if size == 12 {
            position.checked_rem_euclid(12).unwrap_or(0)
        } else if size == 24 {
            position.checked_rem_euclid(24).unwrap_or(0)
        } else {
            position.checked_rem_euclid(36).unwrap_or(0)
        };
        folded as usize
    }

    /// A band, or a profile, of the size in force that holds nothing.
    pub fn band(&self) -> (r: Vec<Double>)
        ensures
            r@ == silence(snapped_size(self.size as int)),
    {
        let size = self.effective_size();
        let mut r: Vec<Double> = Vec::new();
        let mut i: usize = 0;
        while i < size
            invariant
                i <= size,
                r@ == silence(i as int),
            decreases size - i,
        {
            r.push(Double::zero());
            assert(r@ =~= silence(i + 1));
            i = i + 1;
        }
        r
    }

    /// Appends to `target` what one spectral peak adds to its band: for each
    /// entry of the harmonic peak table in turn, for which `spots` holds the
    /// peak's place among the bins, the additions of `spot_terms`.
    pub fn add_contribution(&self, peak: usize, spots: &Vec<Spot>, target: &mut Vec<Term>)
        ensures
            final(target)@ == old(target)@ + peak_terms(
                snapped_size(self.size as int),
                self.weighting,
                peak as int,
                spots@,
                spots@.len() as int,
            ),
    {
        let ghost size = snapped_size(self.size as int);
        let mut h: usize = 0;
        while h < spots.len()
            invariant
                h <= spots.len(),
                size == snapped_size(self.size as int),
                target@ == old(target)@ + peak_terms(
                    size,
                    self.weighting,
                    peak as int,
                    spots@,
                    h as int,
                ),
            decreases spots.len() - h,
        {
            let spot = spots[h];
            let ghost base = target@;
            if self.weighting {
                let left = spot.lower.ceil();
                let last = spot.upper.floor();
                if left <= last {
                    let mut i: i64 = left;
                    while i < last
                        invariant
                            left <= i <= last,
                            size == snapped_size(self.size as int),
                            target@ == base + window_terms(
                                size,
                                peak as int,
                                h as int,
                                left as int,
                                i as int,
                            ),
                        decreases last - i,
                    {
                        let bin = self.bin_index(i);
                        target.push(Term { bin, peak, harmonic: h, position: i });
                        assert(target@ =~= base + window_terms(
                            size,
                            peak as int,
                            h as int,
                            left as int,
                            i + 1,
                        ));
                        i = i + 1;
                    }
                    let bin = self.bin_index(last);
                    target.push(Term { bin, peak, harmonic: h, position: last });
                }
                assert(target@ =~= base + window_terms(
                    size,
                    peak as int,
                    h as int,
                    left as int,
                    last + 1,
                ));
            } else if !spot.shifted.le(Double::zero()) {
                let nearest = spot.position.round();
                let bin = self.bin_index(nearest);
                target.push(Term { bin, peak, harmonic: h, position: nearest });
                assert(target@ =~= base + spot_terms(
                    size,
                    self.weighting,
                    peak as int,
                    h as int,
                    spot,
                ));
            } else {
                assert(target@ =~= base + spot_terms(
                    size,
                    self.weighting,
                    peak as int,
                    h as int,
                    spot,
                ));
            }
            assert(target@ =~= old(target)@ + peak_terms(
                size,
                self.weighting,
                peak as int,
                spots@,
                h + 1,
            ));
            h = h + 1;
        }
    }

    /// Adjusts the input, then plans the profile: every peak within the
    /// frequency range adds to its band what `add_contribution` says, peak by
    /// peak. `spots[k]` holds the places of peak `k` among the bins, one for
    /// each entry of the harmonic peak table; peaks for which `spots` holds
    /// nothing are not read.
    ///
    /// Where nothing is added to either band the profile is known, and is
    /// stored: it holds nothing. That is so for an input without peaks, and
    /// for a lowest frequency above the highest. Else the output is cleared
    /// until the caller has carried the additions out.
    pub fn compute(&mut self, spots: &Vec<Vec<Spot>>) -> (plan: Plan)
        ensures
            final(self).adjusts(old(self)),
            plan.low@ == final(self).band_terms(
                Band::Low,
                spots@,
                aligned_len(final(self).frequencies@.len() as int, spots@.len() as int),
            ),
            plan.high@ == final(self).band_terms(
                Band::High,
                spots@,
                aligned_len(final(self).frequencies@.len() as int, spots@.len() as int),
            ),
            forall|i: int| 0 <= i < plan.low@.len() ==> (#[trigger] plan.low@[i]).bin < final(self).size,
            forall|i: int|
                0 <= i < plan.high@.len() ==> (#[trigger] plan.high@[i]).bin < final(self).size,
            final(self).size == 12 || final(self).size == 24 || final(self).size == 36,
            old(self).frequencies@.len() == 0 || old(self).magnitudes@.len() == 0
                ==> plan.low@.len() == 0 && plan.high@.len() == 0,
            old(self).min_frequency.spec_gt(old(self).max_frequency) ==> plan.low@.len() == 0
                && plan.high@.len() == 0,
            plan.low@.len() == 0 && plan.high@.len() == 0 ==> (final(self).hpcp_data matches Some(
                profile,
            ) && profile@ == silence(final(self).size as int)),
            plan.low@.len() != 0 || plan.high@.len() != 0 ==> final(self).hpcp_data is None,
            final(self).profile_fits(),
    {
        self.adjust_input();
        let peaks = if self.frequencies.len() < spots.len() {
            self.frequencies.len()
        } else {
            spots.len()
        };
        let mut low: Vec<Term> = Vec::new();
        let mut high: Vec<Term> = Vec::new();
        let mut k: usize = 0;
        while k < peaks
            invariant
                k <= peaks,
                peaks <= self.frequencies.len(),
                peaks <= spots.len(),
                self.size == snapped_size(self.size as int),
                low@ == self.band_terms(Band::Low, spots@, k as int),
                high@ == self.band_terms(Band::High, spots@, k as int),
            decreases peaks - k,
        {
            match self.route(self.frequencies[k]) {
                Some(Band::Low) => {
                    self.add_contribution(k, &spots[k], &mut low);
                },
                Some(Band::High) => {
                    self.add_contribution(k, &spots[k], &mut high);
                },
                None => {},
            }
            k = k + 1;
        }
        proof {
            assert forall|i: int| 0 <= i < low@.len() implies (#[trigger] low@[i]).bin
                < self.size by {
                self.lemma_band_terms_in_profile(Band::Low, spots@, peaks as int, i);
            }
            assert forall|i: int| 0 <= i < high@.len() implies (#[trigger] high@[i]).bin
                < self.size by {
                self.lemma_band_terms_in_profile(Band::High, spots@, peaks as int, i);
            }
        }
        proof {
            if self.min_frequency.spec_gt(self.max_frequency) {
                self.lemma_inverted_range_is_silent(Band::Low, spots@, peaks as int);
                self.lemma_inverted_range_is_silent(Band::High, spots@, peaks as int);
            }
        }
        let ghost planned = *self;
        if low.len() == 0 && high.len() == 0 {
            self.hpcp_data = Some(self.band());
        } else {
            self.hpcp_data = None;
        }
        proof {
            planned.lemma_plan_is_determined(&*self, Band::Low, spots@, spots@, peaks as int);
            planned.lemma_plan_is_determined(&*self, Band::High, spots@, spots@, peaks as int);
        }
        Plan { low, high }
    }

    /// The largest value of a band, and zero for a band that has none above
    /// zero.
    pub fn maxvf(target: &Vec<Double>) -> (m: Double)
        ensures
            m == leader(target@, target@.len() as int),
    {
        let mut m = Double::zero();
        let mut i: usize = 0;
        while i < target.len()
            invariant
                i <= target.len(),
                m == leader(target@, i as int),
            decreases target.len() - i,
        {
            let x = target[i];
            if x.gt(m) {
                m = x;
            }
            i = i + 1;
        }
        m
    }

    /// The number by which `target` is to be divided, bin by bin, so that its
    /// largest value becomes 1; `None` where the largest value is zero and
    /// the band stays as it is.
    pub fn normalize(target: &Vec<Double>) -> (divisor: Option<Double>)
        ensures
            divisor == if leader(target@, target@.len() as int).spec_is_zero() {
                None
            } else {
                Some(leader(target@, target@.len() as int))
            },
    {
        let m = HPCP::maxvf(target);
        if m.is_zero() {
            None
        } else {
            Some(m)
        }
    }

    /// The steps from the bands to the profile, in order.
    pub fn stages(&self) -> (r: Vec<Stage>)
        ensures
            r@ == self.spec_stages(),
    {
        let mut r: Vec<Stage> = Vec::new();
        if self.normalized {
            r.push(Stage::RescaleBands);
        }
        r.push(Stage::Merge);
        if self.normalized {
            r.push(Stage::RescaleProfile);
            if self.nonlinear_post {
                r.push(Stage::Contrast);
            }
        }
        assert(r@ =~= self.spec_stages());
        r
    }

    /// Whether the contrast curve lowers a bin once more: whether the value
    /// that the first step of the curve gave lies below 0.6.
    pub fn below_contrast_threshold(value: Double) -> (r: bool)
        ensures
            r == value.spec_lt(Double { bits: CONTRAST_THRESHOLD }),
    {
        value.lt(Double::from_bits(CONTRAST_THRESHOLD))
    }

    /// Stores the profile that the caller made of the plan, where it has as
    /// many bins as the size in force says. A profile of another length is
    /// refused, and the output stays as it is.
    pub fn store(&mut self, profile: Vec<Double>) -> (stored: bool)
        ensures
            stored == (profile@.len() == snapped_size(old(self).size as int)),
            stored ==> (final(self).hpcp_data matches Some(held) && held@ == profile@),
            !stored ==> final(self).hpcp_data == old(self).hpcp_data,
            stored || old(self).profile_fits() ==> final(self).profile_fits(),
            final(self).adjusts_nothing(old(self)),
    {
        if profile.len() == self.effective_size() {
            self.hpcp_data = Some(profile);
            true
        } else {
            false
        }
    }

    /// A second adjustment changes nothing: what `adjust_input` makes of an
    /// adjusted profile is that profile.
    pub proof fn lemma_adjust_twice(&self, once: &HPCP, twice: &HPCP)
        requires
            once.adjusts(self),
            twice.adjusts(once),
        ensures
            twice.size == once.size,
            twice.weighting_window_size == once.weighting_window_size,
            twice.frequencies@ == once.frequencies@,
            twice.magnitudes@ == once.magnitudes@,
            twice.adjusts(self),
    {
        assert(twice.frequencies@ =~= once.frequencies@);
        assert(twice.magnitudes@ =~= once.magnitudes@);
    }

    /// Every addition to a band goes into a bin of the profile.
    pub proof fn lemma_band_terms_in_profile(&self, band: Band, spots: Seq<Vec<Spot>>, n: int, i: int)
        requires
            0 <= i < self.band_terms(band, spots, n).len(),
        ensures
            self.band_terms(band, spots, n)[i].bin < snapped_size(self.size as int),
        decreases n,
    {
        if n > 0 {
            let before = self.band_terms(band, spots, n - 1);
            if i < before.len() {
                self.lemma_band_terms_in_profile(band, spots, n - 1, i);
            } else {
                lemma_peak_terms_in_profile(
                    snapped_size(self.size as int),
                    self.weighting,
                    n - 1,
                    spots[n - 1]@,
                    spots[n - 1]@.len() as int,
                    i - before.len(),
                );
            }
        }
    }

    /// A configuration whose lowest frequency lies above its highest feeds
    /// no band, whatever the peaks: nothing is added.
    pub proof fn lemma_inverted_range_is_silent(&self, band: Band, spots: Seq<Vec<Spot>>, n: int)
        requires
            self.min_frequency.spec_gt(self.max_frequency),
        ensures
            forall|frequency: Double| self.band_of(frequency) is None,
            self.band_terms(band, spots, n).len() == 0,
        decreases n,
    {
        if n > 0 {
            self.lemma_inverted_range_is_silent(band, spots, n - 1);
        }
    }

    /// The plan is determined by what the profile was given: two profiles
    /// of the same frequencies, frequency bounds, size and kernel plan the
    /// same additions for the same spots, whatever else they hold.
    pub proof fn lemma_plan_is_determined(
        &self,
        other: &HPCP,
        band: Band,
        spots: Seq<Vec<Spot>>,
        other_spots: Seq<Vec<Spot>>,
        n: int,
    )
        requires
            self.frequencies@ == other.frequencies@,
            self.min_frequency == other.min_frequency,
            self.max_frequency == other.max_frequency,
            self.band_split_frequency == other.band_split_frequency,
            snapped_size(self.size as int) == snapped_size(other.size as int),
            self.weighting == other.weighting,
            n <= spots.len(),
            n <= other_spots.len(),
            forall|k: int| 0 <= k < n ==> (#[trigger] spots[k])@ == other_spots[k]@,
        ensures
            self.band_terms(band, spots, n) == other.band_terms(band, other_spots, n),
        decreases n,
    {
        if n > 0 {
            self.lemma_plan_is_determined(other, band, spots, other_spots, n - 1);
        }
    }
}

} // verus!
