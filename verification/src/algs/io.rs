//! Input and output of mono tracks as WAVE files.

use vstd::prelude::*;
use crate::algs::Algorithm;
use crate::mixer::{
    appended, can_write, plain_wave, signed_samples, took_in, wav_image, Decoded, LoadError,
    Loader, Writer, BITS_PER_SAMPLE, CHANNELS,
};

verus! {

/// Loads a WAVE file of the plainest form as one channel of unsigned
/// 16-bit samples.
pub struct MonoLoader {
    /// Input: the path of the file that is meant.
    pub file: String,
    /// Input: the contents of that file, which the caller has read.
    pub source: Vec<u8>,
    /// Output: the samples; `None` before anything was loaded, and where
    /// loading failed.
    pub pcm_data: Option<Vec<u16>>,
    /// Output: the number of samples per second.
    pub sample_rate: usize,
}

/// Whether the samples are all channels of the packets mixed down, one
/// packet after the other, and the packets are whole, at least one, and
/// all of the given rate.
pub open spec fn mixed_down(samples: Seq<u16>, sample_rate: usize, packets: Seq<Decoded>) -> bool {
    &&& packets.len() > 0
    &&& samples == appended(None, packets, packets.len() as int)
    &&& forall|i: int|
        0 <= i < packets.len() ==> {
            &&& (#[trigger] packets[i]).wf()
            &&& packets[i].planes@.len() > 0
            &&& packets[i].rate == sample_rate
        }
}

impl MonoLoader {
    /// Whether the output is one that the input allows: none, with the
    /// rate as it was in `before`; or the samples of packets of one rate,
    /// mixed down, with that rate. There is none where the contents are no
    /// plain WAVE stream.
    pub open spec fn loads(&self, before: &MonoLoader) -> bool {
        &&& match self.pcm_data {
            Some(samples) => exists|packets: Seq<Decoded>|
                mixed_down(samples@, self.sample_rate, packets),
            None => self.sample_rate == before.sample_rate,
        }
        &&& !plain_wave(self.source@) ==> self.pcm_data is None
    }

    /// A loader with no path, no contents and no output.
    pub fn pynew() -> (r: MonoLoader)
        ensures
            r.file@ == Seq::<char>::empty(),
            r.source@ == Seq::<u8>::empty(),
            r.pcm_data is None,
            r.sample_rate == 0,
    {
        MonoLoader { file: String::new(), source: Vec::new(), pcm_data: None, sample_rate: 0 }
    }

    /// Replaces the path and the contents, each where a new one is given,
    /// then computes.
    pub fn pycompute(&mut self, file: Option<String>, source: Option<Vec<u8>>)
        ensures
            final(self).file@ == match file {
                Some(given) => given@,
                None => old(self).file@,
            },
            final(self).source@ == match source {
                Some(given) => given@,
                None => old(self).source@,
            },
            final(self).loads(old(self)),
    {
        if let Some(given) = file {
            self.file = given;
        }
        if let Some(given) = source {
            self.source = given;
        }
        self.compute();
    }

    /// Computes: see `compute`.
    pub fn __call__(&mut self)
        ensures
            final(self).file@ == old(self).file@,
            final(self).source@ == old(self).source@,
            final(self).loads(old(self)),
    {
        self.compute()
    }

    /// Stores what a loader has loaded: its samples and its rate, where
    /// loading succeeded and the rate is known. Else there is no output,
    /// and the rate is kept.
    pub fn take(&mut self, outcome: Result<(), LoadError>, loaded: &Loader)
        ensures
            final(self).file@ == old(self).file@,
            final(self).source@ == old(self).source@,
            match (outcome, loaded@.sample_rate) {
                (Ok(_), Some(rate)) => {
                    &&& final(self).pcm_data matches Some(samples) && samples@ == loaded@.data
                    &&& final(self).sample_rate == rate
                },
                _ => {
                    &&& final(self).pcm_data is None
                    &&& final(self).sample_rate == old(self).sample_rate
                },
            },
    {
        match (outcome, loaded.sample_rate()) {
            (Ok(_), Some(rate)) => {
                self.pcm_data = Some(loaded.data());
                self.sample_rate = rate as usize;
            },
            _ => {
                self.pcm_data = None;
            },
        }
    }
}

impl Algorithm for MonoLoader {
    /// A loader with no path, no contents and no output.
    fn new() -> (r: Self)
        ensures
            r.file@ == Seq::<char>::empty(),
            r.source@ == Seq::<u8>::empty(),
            r.pcm_data is None,
            r.sample_rate == 0,
    {
        MonoLoader::pynew()
    }

    /// Loads the contents held with a fresh `Loader` that mixes all
    /// channels down, and stores what it loaded as `take` says. The input
    /// is kept.
    fn compute(&mut self)
        ensures
            final(self).file@ == old(self).file@,
            final(self).source@ == old(self).source@,
            final(self).loads(old(self)),
    {
        let mut loader = Loader::new();
        let ghost fresh = loader@;
        let outcome = loader.file(self.file.clone()).load(self.source.clone());
        self.take(outcome, &loader);
        proof {
            if self.pcm_data is Some {
                let samples = self.pcm_data->0;
                let packets = choose|packets: Seq<Decoded>|
                    took_in(
                        (crate::mixer::LoaderView { file_path: old(self).file@, ..fresh }),
                        loader@,
                        packets,
                    );
                assert(samples@ =~= appended(None, packets, packets.len() as int));
                assert(mixed_down(samples@, self.sample_rate, packets));
            }
        }
    }
}

/// Writes 16-bit samples as a mono WAVE file.
pub struct MonoWriter {
    /// Input: the path of the file that is meant.
    pub file: String,
    /// Input: the samples, as unsigned 16-bit values around 32768.
    pub pcm_data: Vec<u16>,
    /// The number of samples per second.
    pub sample_rate: usize,
    /// Output: the bytes of the file, which the caller stores at the path;
    /// `None` where no file could be made.
    pub wav_data: Option<Vec<u8>>,
}

/// The rate that a file is written at: the low 32 bits of the rate asked
/// for.
pub open spec fn file_rate(sample_rate: usize) -> u32 {
    (sample_rate as int % 0x1_0000_0000) as u32
}

impl MonoWriter {
    /// A writer at the given rate, with no path, no samples and no output.
    pub fn pynew(sample_rate: usize) -> (r: MonoWriter)
        ensures
            r.file@ == Seq::<char>::empty(),
            r.pcm_data@ == Seq::<u16>::empty(),
            r.sample_rate == sample_rate,
            r.wav_data is None,
    {
        MonoWriter { file: String::new(), pcm_data: Vec::new(), sample_rate, wav_data: None }
    }

    /// Replaces the path and the samples, each where a new one is given,
    /// then computes.
    pub fn pycompute(&mut self, file: Option<String>, pcm_data: Option<Vec<u16>>)
        ensures
            final(self).file@ == match file {
                Some(given) => given@,
                None => old(self).file@,
            },
            final(self).pcm_data@ == match pcm_data {
                Some(given) => given@,
                None => old(self).pcm_data@,
            },
            final(self).sample_rate == old(self).sample_rate,
            final(self).encodes(),
    {
        if let Some(given) = file {
            self.file = given;
        }
        if let Some(given) = pcm_data {
            self.pcm_data = given;
        }
        self.compute();
    }

    /// Computes: see `compute`.
    pub fn __call__(&mut self)
        ensures
            final(self).file@ == old(self).file@,
            final(self).pcm_data@ == old(self).pcm_data@,
            final(self).sample_rate == old(self).sample_rate,
            final(self).encodes(),
    {
        self.compute()
    }

    /// Whether the output is that of the input: no file where none can be
    /// written, and else the mono WAVE file of the samples at the rate.
    pub open spec fn encodes(&self) -> bool {
        &&& self.wav_data is None <==> !can_write(
            file_rate(self.sample_rate),
            self.pcm_data@.len(),
        )
        &&& self.wav_data matches Some(bytes) ==> bytes@ == wav_image(
            CHANNELS,
            file_rate(self.sample_rate),
            BITS_PER_SAMPLE,
            signed_samples(self.pcm_data@),
        )
    }
}

impl Algorithm for MonoWriter {
    /// A writer at 44100 samples per second.
    fn new() -> (r: Self)
        ensures
            r.file@ == Seq::<char>::empty(),
            r.pcm_data@ == Seq::<u16>::empty(),
            r.sample_rate == 44100,
            r.wav_data is None,
    {
        MonoWriter::pynew(44100)
    }

    /// Makes the file of the samples held and stores its bytes in
    /// `wav_data`. The input is kept.
    fn compute(&mut self)
        ensures
            final(self).file@ == old(self).file@,
            final(self).pcm_data@ == old(self).pcm_data@,
            final(self).sample_rate == old(self).sample_rate,
            final(self).encodes(),
    {
        let rate: u32 = (self.sample_rate as u64 % 0x1_0000_0000) as u32;
        let mut writer = Writer::new();
        let result = writer.sample_rate(rate).file(self.file.clone()).write(&self.pcm_data);
        self.wav_data = match result {
            Ok(bytes) => Some(bytes),
            Err(_) => None,
        };
    }
}

} // verus!
