//! A synthesizer for simple waveforms: its configuration, the count of the
//! samples of a tone, the course of the envelope over them, and the
//! rounding of each sample. The amplitudes themselves are real arithmetic,
//! and the caller's.

use vstd::prelude::*;
use crate::double::Double;

verus! {

/// 44100.0, the sample rate of a generator that is given none.
pub const DEFAULT_SAMPLE_RATE: u64 = 0x40E5_8880_0000_0000;

/// Waveforms supported by the tone generator.
#[derive(Clone, Copy, Debug, PartialEq, Eq, Structural)]
pub enum Waveform {
    /// Sinusoidal wave.
    Sin,
    /// Square wave.
    Square,
    /// Sawtooth wave.
    Sawtooth,
}

/// The waveform that a name stands for: `sin`, `sqr` or `saw`, and the
/// sinusoidal wave for every other name.
pub open spec fn waveform_named(name: Seq<char>) -> Waveform {
    if name == "sqr"@ {
        Waveform::Square
    } else if name == "saw"@ {
        Waveform::Sawtooth
    } else {
        Waveform::Sin
    }
}

/// Tone generator with a given frequency, sample rate and waveform.
pub struct Generator {
    freq: Double,
    sample_rate: Double,
    waveform: Waveform,
}

impl Generator {
    /// The frequency of the tone, in hertz.
    pub closed spec fn frequency(&self) -> Double {
        self.freq
    }

    /// The number of samples per second.
    pub closed spec fn rate(&self) -> Double {
        self.sample_rate
    }

    /// The waveform of the tone.
    pub closed spec fn shape(&self) -> Waveform {
        self.waveform
    }

    /// A generator of the given frequency; at 44100 samples per second
    /// where no rate is given, and of a sinusoidal wave where no waveform
    /// is given.
    pub fn new(freq: Double, sample_rate: Option<Double>, w: Option<Waveform>) -> (r: Generator)
        ensures
            r.frequency() == freq,
            r.rate() == match sample_rate {
                Some(rate) => rate,
                None => Double { bits: DEFAULT_SAMPLE_RATE },
            },
            r.shape() == match w {
                Some(waveform) => waveform,
                None => Waveform::Sin,
            },
    {
        Generator {
            freq,
            sample_rate: match sample_rate {
                Some(rate) => rate,
                None => Double::from_bits(DEFAULT_SAMPLE_RATE),
            },
            waveform: match w {
                Some(waveform) => waveform,
                None => Waveform::Sin,
            },
        }
    }

    /// Changes the frequency of the tone.
    pub fn freq(&mut self, f: Double) -> (r: &Self)
        ensures
            final(self).frequency() == f,
            final(self).rate() == old(self).rate(),
            final(self).shape() == old(self).shape(),
            *r == *final(self),
    {
        self.freq = f;
        self
    }

    /// Changes the sample rate.
    pub fn sample_rate(&mut self, sample_rate: Double) -> (r: &Self)
        ensures
            final(self).frequency() == old(self).frequency(),
            final(self).rate() == sample_rate,
            final(self).shape() == old(self).shape(),
            *r == *final(self),
    {
        self.sample_rate = sample_rate;
        self
    }

    /// Changes the waveform.
    pub fn w(&mut self, w: Waveform) -> (r: &Self)
        ensures
            final(self).frequency() == old(self).frequency(),
            final(self).rate() == old(self).rate(),
            final(self).shape() == w,
            *r == *final(self),
    {
        self.waveform = w;
        self
    }

    /// The sample number for a time: the smallest whole number of samples
    /// that is not below `samples`, the time in seconds multiplied by the
    /// sample rate. What is below zero or no number counts as no sample.
    pub fn time(&self, samples: Double) -> (r: usize)
        ensures
            r == samples.spec_ceil_count(),
    {
        samples.ceil_count()
    }

    /// The frequency of the tone, in hertz.
    pub fn get_freq(&self) -> (r: Double)
        ensures
            r == self.frequency(),
    {
        self.freq
    }

    /// The number of samples per second.
    pub fn get_sample_rate(&self) -> (r: Double)
        ensures
            r == self.rate(),
    {
        self.sample_rate
    }

    /// The waveform of the tone.
    pub fn get_waveform(&self) -> (r: Waveform)
        ensures
            r == self.shape(),
    {
        self.waveform
    }
}

/// Linear envelope of a tone: the times are in seconds, the sustain is a
/// level.
#[derive(Clone, Copy, Debug)]
pub struct Envelope {
    /// Attack: the time in which the tone rises to its full level.
    pub a: Double,
    /// Hold: the time for which it stays there.
    pub h: Double,
    /// Decay: the time in which it falls to the sustain level.
    pub d: Double,
    /// Sustain: the level that is kept until the release.
    pub s: Double,
    /// Release: the time in which the tone falls silent at its end.
    pub r: Double,
}

/// The times of an envelope, counted in samples.
#[derive(Clone, Copy, Debug)]
pub struct Timing {
    /// The samples of the attack.
    pub a: usize,
    /// The samples of the hold.
    pub h: usize,
    /// The samples of the decay.
    pub d: usize,
    /// The samples of the release.
    pub r: usize,
}

/// The times of an envelope in seconds, each multiplied by the sample rate.
#[derive(Clone, Copy, Debug)]
pub struct Stretch {
    /// The attack.
    pub a: Double,
    /// The hold.
    pub h: Double,
    /// The decay.
    pub d: Double,
    /// The release.
    pub r: Double,
}

/// The part of the envelope that a sample lies on, and how far into it.
#[derive(Clone, Copy, Debug, PartialEq, Eq, Structural)]
pub enum Segment {
    /// Rising: the multiplier is `position / length`.
    Attack {
        /// The samples since the tone began.
        position: usize,
        /// The samples of the attack.
        length: usize,
    },
    /// At the full level: the multiplier is 1.
    Hold,
    /// Falling to the sustain level `s`: the multiplier is
    /// `1 - position * (1 - s) / length`.
    Decay {
        /// The samples since the hold ended.
        position: usize,
        /// The samples of the decay.
        length: usize,
    },
    /// Falling silent: the multiplier is `s - position * s / length`.
    Release {
        /// The samples since the release began.
        position: usize,
        /// The samples of the release.
        length: usize,
    },
    /// At the sustain level: the multiplier is `s`.
    Sustain,
}

/// The part of the envelope that sample `x` of a tone of `duration` samples
/// lies on. Attack, hold and decay follow one another from the first
/// sample. After them the tone is sustained up to the sample at which the
/// release begins, as many samples before the end as the release counts,
/// and is released past that sample. A duration of 0 says that the end is
/// not known, and nothing is released.
pub open spec fn segment_at(timing: Timing, x: usize, duration: usize) -> Segment {
    if x < timing.a {
        Segment::Attack { position: x, length: timing.a }
    } else if x < timing.a + timing.h {
        Segment::Hold
    } else if x < timing.a + timing.h + timing.d {
        Segment::Decay { position: (x - (timing.a + timing.h)) as usize, length: timing.d }
    } else if duration > 0 && x > duration - timing.r {
        Segment::Release { position: (x - (duration - timing.r)) as usize, length: timing.r }
    } else {
        Segment::Sustain
    }
}

impl Envelope {
    /// An envelope of attack, decay, sustain and release, without a hold.
    pub fn adsr(a: Double, d: Double, s: Double, r: Double) -> (e: Envelope)
        ensures
            e.a == a,
            e.h.bits == 0,
            e.d == d,
            e.s == s,
            e.r == r,
    {
        Envelope { a, h: Double::zero(), d, s, r }
    }

    /// The times of an envelope counted in samples: each is rounded up as
    /// `Generator::time` rounds.
    pub fn timing(g: &Generator, stretch: &Stretch) -> (r: Timing)
        ensures
            r.a == stretch.a.spec_ceil_count(),
            r.h == stretch.h.spec_ceil_count(),
            r.d == stretch.d.spec_ceil_count(),
            r.r == stretch.r.spec_ceil_count(),
    {
        Timing {
            a: g.time(stretch.a),
            h: g.time(stretch.h),
            d: g.time(stretch.d),
            r: g.time(stretch.r),
        }
    }

    /// The part of the envelope that sample `x` lies on, from which the
    /// multiplier follows. `timing` holds the times of the envelope in
    /// samples. For a tone of known length pass its samples as `duration`;
    /// pass 0 where the length is not known, and nothing is released.
    ///
    /// A sample past the decay of a tone that is shorter than its release
    /// has no place on the envelope, and is not taken.
    pub fn multiplier(timing: &Timing, x: usize, duration: usize) -> (r: Segment)
        requires
            x >= timing.a + timing.h + timing.d && duration > 0 ==> timing.r <= duration,
        ensures
            r == segment_at(*timing, x, duration),
    {
        if x < timing.a {
            return Segment::Attack { position: x, length: timing.a };
        }
        let past_attack = x - timing.a;
        if past_attack < timing.h {
            return Segment::Hold;
        }
        let past_hold = past_attack - timing.h;
        if past_hold < timing.d {
            return Segment::Decay { position: past_hold, length: timing.d };
        }
        if duration > 0 && x > duration - timing.r {
            return Segment::Release { position: x - (duration - timing.r), length: timing.r };
        }
        Segment::Sustain
    }
}

/// Wavetable generator.
pub struct Wavetable {
    /// The tone generator.
    pub generator: Generator,
    /// The envelope that is laid over the tone.
    pub envelope: Option<Envelope>,
    /// The number of samples that are generated.
    pub samples: Option<usize>,
}

/// The sample that a value becomes: the nearest whole number, and the
/// nearest bound for what lies beyond 16 unsigned bits; 0 for what is no
/// number.
pub open spec fn sample_of(value: Double) -> u16 {
    if value.spec_round() < 0 {
        0
    } else if value.spec_round() > u16::MAX {
        u16::MAX
    } else {
        value.spec_round() as u16
    }
}

impl Wavetable {
    /// Sets the number of samples that are generated: those of the time
    /// `samples`, given in seconds multiplied by the sample rate.
    pub fn time(&mut self, samples: Double) -> (r: &Self)
        ensures
            final(self).samples == Some(samples.spec_ceil_count()),
            final(self).generator == old(self).generator,
            final(self).envelope == old(self).envelope,
            *r == *final(self),
    {
        self.samples = Some(self.generator.time(samples));
        self
    }

    /// The sample that a value becomes.
    pub fn sample(value: Double) -> (r: u16)
        ensures
            r == sample_of(value),
    {
        let nearest = value.round();
        if nearest < 0 {
            0
        } else if nearest > 65535 {
            65535
        } else {
            nearest as u16
        }
    }

    /// The wavetable: each value rounded to a sample. `values` holds, for
    /// each sample in turn, the middle of the range plus the amplitude under
    /// the envelope, as the caller computed it. As many samples are made as
    /// were set, and no more than values are given.
    pub fn u16(&self, values: &Vec<Double>) -> (output: Vec<u16>)
        requires
            self.samples is Some,
        ensures
            output@.len() == shorter(self.samples->0 as int, values@.len() as int),
            forall|i: int| 0 <= i < output@.len() ==> output@[i] == sample_of(values@[i]),
    {
        let n = match self.samples {
            Some(n) => n,
            None => 0,
        };
        let n = if n < values.len() {
            n
        } else {
            values.len()
        };
        let mut output: Vec<u16> = Vec::new();
        let mut i: usize = 0;
        while i < n
            invariant
                i <= n <= values.len(),
                output@.len() == i,
                forall|t: int| 0 <= t < i ==> output@[t] == sample_of(values@[t]),
            decreases n - i,
        {
            output.push(Wavetable::sample(values[i]));
            i = i + 1;
        }
        output
    }
}

/// Synthesizes a sequence of tones.
pub struct Synthesizer {
    /// Input: the frequencies of the tones, in hertz.
    pub freq: Vec<Double>,
    /// Input: the durations of the tones, in seconds.
    pub durations: Vec<Double>,
    /// Output: the samples of the tones, one tone after the other.
    pub pcm_data: Option<Vec<u16>>,
    /// The number of samples per second.
    pub sample_rate: usize,
    /// The envelope of each tone as attack, hold, decay, sustain and
    /// release; a sequence of any other length than five is no envelope.
    pub envelope: Vec<Double>,
    /// The name of the waveform: `sin`, `sqr` or `saw`.
    pub waveform: String,
}

/// The samples of the first `n` tables, one table after the other.
pub open spec fn joined(tables: Seq<Vec<u16>>, n: int) -> Seq<u16>
    decreases n,
{
    if n <= 0 {
        Seq::empty()
    } else {
        joined(tables, n - 1) + tables[n - 1]@
    }
}

/// The smaller of two lengths.
pub open spec fn shorter(a: int, b: int) -> int {
    if a < b {
        a
    } else {
        b
    }
}

impl Synthesizer {
    /// A synthesizer with the given parameters, no tones and no output.
    /// Where no envelope is given there is none.
    pub fn pynew(sample_rate: usize, envelope: Option<Vec<Double>>, waveform: &str) -> (r:
        Synthesizer)
        ensures
            r.freq@ == Seq::<Double>::empty(),
            r.durations@ == Seq::<Double>::empty(),
            r.pcm_data is None,
            r.sample_rate == sample_rate,
            r.envelope@ == match envelope {
                Some(given) => given@,
                None => Seq::<Double>::empty(),
            },
            r.waveform@ == waveform@,
    {
        Synthesizer {
            freq: Vec::new(),
            durations: Vec::new(),
            pcm_data: None,
            sample_rate,
            envelope: match envelope {
                Some(given) => given,
                None => Vec::new(),
            },
            waveform: waveform.to_owned(),
        }
    }

    /// A synthesizer of sinusoidal tones at 44100 samples per second,
    /// without an envelope.
    pub fn new() -> (r: Synthesizer)
        ensures
            r.freq@ == Seq::<Double>::empty(),
            r.durations@ == Seq::<Double>::empty(),
            r.pcm_data is None,
            r.sample_rate == 44100,
            r.envelope@ == Seq::<Double>::empty(),
            r.waveform@ == "sin"@,
    {
        Synthesizer::pynew(44100, None, "sin")
    }

    /// Replaces the frequencies and the durations, each where new ones are
    /// given.
    pub fn __call__(&mut self, freq: Option<Vec<Double>>, durations: Option<Vec<Double>>)
        ensures
            final(self).freq@ == match freq {
                Some(given) => given@,
                None => old(self).freq@,
            },
            final(self).durations@ == match durations {
                Some(given) => given@,
                None => old(self).durations@,
            },
            final(self).pcm_data == old(self).pcm_data,
            final(self).sample_rate == old(self).sample_rate,
            final(self).envelope == old(self).envelope,
            final(self).waveform == old(self).waveform,
    {
        if let Some(given) = freq {
            self.freq = given;
        }
        if let Some(given) = durations {
            self.durations = given;
        }
    }

    /// The waveform that the name held stands for.
    pub fn shape(&self) -> (r: Waveform)
        ensures
            r == waveform_named(self.waveform@),
    {
        if self.waveform == "sqr".to_owned() {
            Waveform::Square
        } else if self.waveform == "saw".to_owned() {
            Waveform::Sawtooth
        } else {
            Waveform::Sin
        }
    }

    /// The envelope of the tones: the five values held, in their order, and
    /// none where there are not five.
    pub fn slopes(&self) -> (r: Option<Envelope>)
        ensures
            self.envelope@.len() != 5 <==> r is None,
            r matches Some(e) ==> {
                &&& e.a == self.envelope@[0]
                &&& e.h == self.envelope@[1]
                &&& e.d == self.envelope@[2]
                &&& e.s == self.envelope@[3]
                &&& e.r == self.envelope@[4]
            },
    {
        if self.envelope.len() == 5 {
            Some(
                Envelope {
                    a: self.envelope[0],
                    h: self.envelope[1],
                    d: self.envelope[2],
                    s: self.envelope[3],
                    r: self.envelope[4],
                },
            )
        } else {
            None
        }
    }

    /// The number of tones: as many as have both a frequency and a
    /// duration.
    pub fn tones(&self) -> (n: usize)
        ensures
            n == shorter(self.freq@.len() as int, self.durations@.len() as int),
    {
        if self.freq.len() < self.durations.len() {
            self.freq.len()
        } else {
            self.durations.len()
        }
    }

    /// Stores the output: the samples of the tones, which the caller has
    /// generated as one table for each tone, joined in their order. Tables
    /// beyond the number of tones are not read.
    pub fn compute(&mut self, tables: &Vec<Vec<u16>>)
        ensures
            final(self).pcm_data matches Some(samples) && samples@ == joined(
                tables@,
                shorter(
                    shorter(old(self).freq@.len() as int, old(self).durations@.len() as int),
                    tables@.len() as int,
                ),
            ),
            final(self).freq == old(self).freq,
            final(self).durations == old(self).durations,
            final(self).sample_rate == old(self).sample_rate,
            final(self).envelope == old(self).envelope,
            final(self).waveform == old(self).waveform,
    {
        let tones = self.tones();
        let n = if tones < tables.len() {
            tones
        } else {
            tables.len()
        };
        let mut r: Vec<u16> = Vec::new();
        let mut i: usize = 0;
        while i < n
            invariant
                i <= n <= tables.len(),
                r@ == joined(tables@, i as int),
            decreases n - i,
        {
            let mut table = tables[i].clone();
            r.append(&mut table);
            i = i + 1;
        }
        self.pcm_data = Some(r);
    }
}

} // verus!
