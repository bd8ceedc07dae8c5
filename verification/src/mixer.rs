//! A simple mixer: loads a WAVE stream and mixes it down to one channel,
//! and writes one channel as the bytes of a WAVE file.
//!
//! The stream is decoded by `symphonia`, and only after the loader has
//! found it to be a WAVE file of the plainest form: the readers of
//! `symphonia` do not return on every stream, and a stream on which they
//! are not known to return is never handed to them.

use vstd::prelude::*;
use crate::double::Double;

verus! {

/// The number of channels of every file that is written.
pub const CHANNELS: u16 = 1;

/// The width of a sample in every file that is written, in bits.
pub const BITS_PER_SAMPLE: u16 = 16;

/// The bytes of the WAVE file that holds the given samples, one after the
/// other, as integers of `bits_per_sample` bits, for `channels` interleaved
/// channels at `sample_rate` samples per second.
pub uninterp spec fn wav_image(
    channels: u16,
    sample_rate: u32,
    bits_per_sample: u16,
    samples: Seq<i16>,
) -> Seq<u8>;

/// The number of bytes that holds a sample of the given width.
pub open spec fn sample_bytes(bits_per_sample: u16) -> int {
    (bits_per_sample + 7) / 8
}

/// The bytes of the header that the sizes in the file count in: more for
/// a format of more than two channels or more than 16 bits.
pub open spec fn header_bytes(channels: u16, bits_per_sample: u16) -> int {
    if channels > 2 || bits_per_sample > 16 {
        60
    } else {
        36
    }
}

/// Asks `hound` for a WAVE file in memory: `WavWriter::new` on an empty
/// cursor with an integer format of the given channels, rate and width,
/// `write_sample` for each sample in order, then `finalize`. Claimed: what
/// comes back, if anything, depends on the four arguments alone; and
/// whole frames of 16-bit samples are never refused, as `hound` refuses
/// only a sample too wide for the width, a last frame that lacks a
/// channel, and what the writer beneath it fails to take, which a cursor
/// over a vector never does. `None` is any refusal. The demands keep `hound` from dividing by zero and from
/// counting beyond 32 bits, which it does not guard against: it divides
/// by the rate and by the channels, and, when a writer is dropped, by the
/// bytes of a sample, which are none for a width of 0; so the width is
/// one of the four that `hound` writes.
#[verifier::external_body]
fn wav_encode(channels: u16, sample_rate: u32, bits_per_sample: u16, samples: &Vec<i16>) -> (r:
    Option<Vec<u8>>)
    requires
        channels > 0,
        sample_rate > 0,
        bits_per_sample == 8 || bits_per_sample == 16 || bits_per_sample == 24
            || bits_per_sample == 32,
        sample_rate * sample_bytes(bits_per_sample) * channels <= u32::MAX,
        samples@.len() * sample_bytes(bits_per_sample) + header_bytes(channels, bits_per_sample)
            <= u32::MAX,
    ensures
        r matches Some(bytes) ==> bytes@ == wav_image(
            channels,
            sample_rate,
            bits_per_sample,
            samples@,
        ),
        bits_per_sample == 16 && samples@.len() % (channels as nat) == 0 ==> r is Some,
{
    let spec = hound::WavSpec {
        channels,
        sample_rate,
        bits_per_sample,
        sample_format: hound::SampleFormat::Int,
    };
    let mut cursor = std::io::Cursor::new(Vec::new());
    let mut writer = hound::WavWriter::new(&mut cursor, spec).ok()?;
    for sample in samples.iter() {
        writer.write_sample(*sample).ok()?;
    }
    writer.finalize().ok()?;
    Some(cursor.into_inner())
}

/// A sample as the file holds it: the unsigned sample moved down by half
/// the range, so that 32768 becomes silence.
pub open spec fn signed_sample(sample: u16) -> i16 {
    (sample - 32768) as i16
}

/// The samples as the file holds them.
pub open spec fn signed_samples(data: Seq<u16>) -> Seq<i16> {
    Seq::new(data.len(), |i: int| signed_sample(data[i]))
}

/// Whether a mono file of `samples` 16-bit samples can be written at the
/// given rate: the rate is not zero, and the byte counts of the file's
/// header fit its 32-bit fields.
pub open spec fn can_write(sample_rate: u32, samples: nat) -> bool {
    &&& 0 < sample_rate
    &&& sample_rate * 2 <= u32::MAX
    &&& samples * 2 + 36 <= u32::MAX
}

/// Audio output: a mono WAVE file of 16-bit samples.
pub struct Writer {
    file_path: String,
    sample_rate: u32,
}

impl Writer {
    /// The path that the file is meant for.
    pub closed spec fn path(&self) -> Seq<char> {
        self.file_path@
    }

    /// The number of samples per second.
    pub closed spec fn rate(&self) -> u32 {
        self.sample_rate
    }

    /// Whether a file of `samples` samples can be written at this rate.
    pub open spec fn writable(&self, samples: nat) -> bool {
        can_write(self.rate(), samples)
    }

    /// A writer with an empty path, at 44100 samples per second.
    pub fn new() -> (r: Writer)
        ensures
            r.path() == Seq::<char>::empty(),
            r.rate() == 44100,
    {
        Writer { file_path: String::new(), sample_rate: 44100 }
    }

    /// Sets the path that the file is meant for.
    pub fn file(&mut self, file_path: String) -> (r: &mut Self)
        ensures
            r.path() == file_path@,
            r.rate() == old(self).rate(),
            *final(self) == *final(r),
    {
        self.file_path = file_path;
        self
    }

    /// Sets the number of samples per second.
    pub fn sample_rate(&mut self, sample_rate: u32) -> (r: &mut Self)
        ensures
            r.path() == old(self).path(),
            r.rate() == sample_rate,
            *final(self) == *final(r),
    {
        self.sample_rate = sample_rate;
        self
    }

    /// The path that the file is meant for.
    pub fn file_path(&self) -> (r: &String)
        ensures
            r@ == self.path(),
    {
        &self.file_path
    }

    /// The samples as the file holds them: each moved down by 32768.
    pub fn to_signed(data: &Vec<u16>) -> (r: Vec<i16>)
        ensures
            r@ == signed_samples(data@),
    {
        let mut r: Vec<i16> = Vec::new();
        let mut i: usize = 0;
        while i < data.len()
            invariant
                i <= data.len(),
                r@ == signed_samples(data@.take(i as int)),
            decreases data.len() - i,
        {
            let sample = data[i];
            let signed: i16 = if sample >= 32768 {
                (sample - 32768) as i16
            } else {
                (sample as i16) - 32767 - 1
            };
            r.push(signed);
            assert(r@ =~= signed_samples(data@.take(i + 1)));
            i = i + 1;
        }
        assert(data@.take(data.len() as int) =~= data@);
        r
    }

    /// What `write` returns for what the encoder gave: its bytes, and an
    /// error where it gave none.
    pub fn written(encoded: Option<Vec<u8>>) -> (r: Result<Vec<u8>, ()>)
        ensures
            r == match encoded {
                Some(bytes) => Ok::<Vec<u8>, ()>(bytes),
                None => Err::<Vec<u8>, ()>(()),
            },
    {
        match encoded {
            Some(bytes) => Ok(bytes),
            None => Err(()),
        }
    }

    /// The bytes of the file: a mono WAVE file at the writer's rate that
    /// holds the data as signed 16-bit samples. Storing them at the path is
    /// the caller's part. An error is returned where the file cannot be
    /// written, and only there.
    pub fn write(&self, data: &Vec<u16>) -> (r: Result<Vec<u8>, ()>)
        ensures
            r is Err <==> !self.writable(data@.len()),
            r matches Ok(bytes) ==> bytes@ == wav_image(
                CHANNELS,
                self.rate(),
                BITS_PER_SAMPLE,
                signed_samples(data@),
            ),
    {
        if self.sample_rate == 0 || self.sample_rate > u32::MAX / 2 {
            return Err(());
        }
        if data.len() > ((u32::MAX - 36) / 2) as usize {
            return Err(());
        }
        let samples = Writer::to_signed(data);
        assert(sample_bytes(BITS_PER_SAMPLE) == 2);
        Writer::written(wav_encode(CHANNELS, self.sample_rate, BITS_PER_SAMPLE, &samples))
    }
}

/// A stream that was recognised, with the reader of its container.
#[verifier::external_type_specification]
#[verifier::external_body]
pub struct ExProbeResult(symphonia::core::probe::ProbeResult);

/// A packet of one track of a stream.
#[verifier::external_type_specification]
#[verifier::external_body]
pub struct ExPacket(symphonia::core::formats::Packet);

/// What `symphonia` reports when it fails.
#[verifier::external_type_specification]
#[verifier::external_body]
pub struct ExError(symphonia::core::errors::Error);

/// The decoder of one track. It holds `symphonia`'s decoder, a trait
/// object, which cannot be declared to the verifier in any other way.
#[verifier::external_body]
struct Codec {
    inner: Box<dyn symphonia::core::codecs::Decoder>,
}

/// The kinds of failure that `symphonia` reports.
#[derive(Clone, Copy, Debug, PartialEq, Eq, Structural)]
pub enum Fault {
    /// Reading the stream failed, or the stream has ended.
    Io,
    /// The stream holds malformed data.
    Decode,
    /// The stream could not be seeked.
    Seek,
    /// The container or the codec has a feature that is not supported.
    Unsupported,
    /// A limit was reached.
    Limit,
    /// The reader or the decoder must be made anew.
    ResetRequired,
}

/// A track of a stream, as far as the loader looks at it.
#[derive(Clone, Copy, Debug)]
pub struct TrackInfo {
    /// The identifier that the packets of the track carry.
    pub id: u32,
    /// Whether the track names a codec.
    pub coded: bool,
}

/// What one packet held: the samples of each channel, and their rate.
pub struct Decoded {
    /// The number of samples per second.
    pub rate: u32,
    /// The number of samples in each channel.
    pub frames: usize,
    /// The samples, one sequence for each channel.
    pub planes: Vec<Vec<u16>>,
}

/// Whether the four bytes from `at` on are the given ones.
pub open spec fn tagged(bytes: Seq<u8>, at: int, tag: (u8, u8, u8, u8)) -> bool {
    &&& bytes[at] == tag.0
    &&& bytes[at + 1] == tag.1
    &&& bytes[at + 2] == tag.2
    &&& bytes[at + 3] == tag.3
}

/// Whether the bytes begin as a WAVE file of integer samples in its
/// plainest form, with a sample rate that is not zero: the mark `RIFF`,
/// four bytes of length, the form `WAVE`, the chunk `fmt ` of 16 bytes
/// with the format 1, and right after it the chunk `data`. Such are the
/// files that `Writer` makes. These are the streams that the loader takes.
pub open spec fn plain_wave(bytes: Seq<u8>) -> bool {
    &&& bytes.len() >= 44
    &&& tagged(bytes, 0, (0x52, 0x49, 0x46, 0x46))
    &&& tagged(bytes, 8, (0x57, 0x41, 0x56, 0x45))
    &&& tagged(bytes, 12, (0x66, 0x6D, 0x74, 0x20))
    &&& tagged(bytes, 16, (16, 0, 0, 0))
    &&& bytes[20] == 1
    &&& bytes[21] == 0
    &&& !tagged(bytes, 24, (0, 0, 0, 0))
    &&& tagged(bytes, 36, (0x64, 0x61, 0x74, 0x61))
}

/// Calls `symphonia::default::get_probe().format` on the bytes, read
/// through a `MediaSourceStream` over a cursor, with no hint and default
/// options. Nothing is claimed of what comes back. The demand leaves out
/// the streams on which `symphonia` is not known to return. Its readers do
/// not return on every stream: that of WAVE stops on a sample rate of 0,
/// on an extensible format of a width that it does not know, and on some
/// compressed formats. On a plain WAVE stream the probe finds the mark at
/// the first byte and starts the reader of WAVE, which reads the form, the
/// one `fmt ` chunk as integer samples, and ends at the `data` chunk; what
/// it does not take there it answers with an error.
#[verifier::external_body]
fn probe(bytes: Vec<u8>) -> (r: Result<
    symphonia::core::probe::ProbeResult,
    symphonia::core::errors::Error,
>)
    requires
        plain_wave(bytes@),
{
    let source = Box::new(std::io::Cursor::new(bytes));
    let stream = symphonia::core::io::MediaSourceStream::new(source, Default::default());
    let hint = symphonia::core::probe::Hint::new();
    symphonia::default::get_probe().format(
        &hint,
        stream,
        &Default::default(),
        &Default::default(),
    )
}

/// Calls `FormatReader::tracks` and hands out, for each track in order, its
/// identifier and whether its codec is another than `CODEC_TYPE_NULL`.
#[verifier::external_body]
fn tracks(source: &symphonia::core::probe::ProbeResult) -> (r: Vec<TrackInfo>) {
    source.format.tracks().iter().map(
        |t| TrackInfo {
            id: t.id,
            coded: t.codec_params.codec != symphonia::core::codecs::CODEC_TYPE_NULL,
        },
    ).collect()
}

/// Calls `symphonia::default::get_codecs().make` with the codec parameters
/// of the track at the given index and default options. `None` where the
/// stream has no track at that index. The loader calls it on the reader of
/// a plain WAVE stream alone, whose one track is of integer samples.
#[verifier::external_body]
fn make_decoder(source: &symphonia::core::probe::ProbeResult, track: usize) -> (r: Option<
    Result<Codec, symphonia::core::errors::Error>,
>) {
    let params = &source.format.tracks().get(track)?.codec_params;
    let made = symphonia::default::get_codecs().make(params, &Default::default());
    Some(made.map(|inner| Codec { inner }))
}

/// Calls `FormatReader::next_packet`. The loader calls it on the reader of
/// a plain WAVE stream alone.
#[verifier::external_body]
fn next_packet(source: &mut symphonia::core::probe::ProbeResult) -> (r: Result<
    symphonia::core::formats::Packet,
    symphonia::core::errors::Error,
>) {
    source.format.next_packet()
}

/// Calls `Packet::track_id`.
#[verifier::external_body]
fn packet_track(packet: &symphonia::core::formats::Packet) -> (r: u32) {
    packet.track_id()
}

/// Calls `Metadata::skip_to_latest` on the metadata of the reader, which
/// drops every revision but the newest.
#[verifier::external_body]
fn skip_metadata(source: &mut symphonia::core::probe::ProbeResult) {
    source.format.metadata().skip_to_latest();
}

/// Calls `Decoder::decode` on the packet and `AudioBufferRef::convert` into
/// a buffer of unsigned 16-bit samples, and hands out the rate of the
/// signal and, by `Signal::chan`, the samples of each channel. Claimed, as
/// `chan` cuts every channel to the frames that were written: each channel
/// holds `frames` samples. (The buffer is made by `AudioBuffer::new`, which
/// takes no signal without channels; no decoder of `symphonia` hands one
/// out.) The loader calls it with the decoder of integer samples alone.
#[verifier::external_body]
fn decode(codec: &mut Codec, packet: &symphonia::core::formats::Packet) -> (r: Result<
    Decoded,
    symphonia::core::errors::Error,
>)
    ensures
        r matches Ok(decoded) ==> decoded.wf(),
{
    let decoded = codec.inner.decode(packet)?;
    let spec = *decoded.spec();
    let mut data = symphonia::core::audio::AudioBuffer::<u16>::new(decoded.capacity() as u64, spec);
    decoded.convert(&mut data);
    let channels = spec.channels.count();
    let planes = (0..channels).map(
        |c| symphonia::core::audio::Signal::chan(&data, c).to_vec(),
    ).collect();
    Ok(Decoded { rate: spec.rate, frames: decoded.frames(), planes })
}

/// Tells the variants of `symphonia`'s error apart.
#[verifier::external_body]
fn fault_of(error: &symphonia::core::errors::Error) -> (r: Fault) {
    match error {
        symphonia::core::errors::Error::IoError(_) => Fault::Io,
        symphonia::core::errors::Error::DecodeError(_) => Fault::Decode,
        symphonia::core::errors::Error::SeekError(_) => Fault::Seek,
        symphonia::core::errors::Error::Unsupported(_) => Fault::Unsupported,
        symphonia::core::errors::Error::LimitError(_) => Fault::Limit,
        symphonia::core::errors::Error::ResetRequired => Fault::ResetRequired,
    }
}

/// Why a stream could not be loaded.
#[derive(Clone, Copy, Debug, PartialEq, Eq, Structural)]
pub enum LoadError {
    /// The stream is no plain WAVE stream, or its reader refused it.
    Format,
    /// The stream has no track that could be decoded.
    Track,
    /// No decoder could be made for the track.
    Codec,
    /// A packet has no channel of the index that was picked.
    Channel,
    /// Reading or decoding failed for good, or the sample rate changed
    /// between two packets (`ResetRequired`).
    Stream(Fault),
    /// The stream did not end within as many packets as the loader reads.
    Endless,
}

/// How loading goes on after a failure.
#[derive(Clone, Copy, Debug, PartialEq, Eq, Structural)]
pub enum Flow {
    /// The packet is dropped, and the next one is read.
    Continue,
    /// Loading ends, with what was loaded.
    Finish,
    /// Loading fails.
    Fail(LoadError),
}

/// How loading goes on where no packet could be read: the end of the
/// stream, which shows as a failure to read, malformed data and a changed
/// stream all end it; every other failure fails it.
pub open spec fn flow_after_read(fault: Fault) -> Flow {
    match fault {
        Fault::ResetRequired | Fault::Decode | Fault::Io => Flow::Finish,
        _ => Flow::Fail(LoadError::Stream(fault)),
    }
}

/// How loading goes on where a packet could not be decoded: a changed
/// stream ends it, a packet that cannot be read or is malformed is
/// dropped, and every other failure fails it.
pub open spec fn flow_after_decode(fault: Fault) -> Flow {
    match fault {
        Fault::ResetRequired => Flow::Finish,
        Fault::Decode | Fault::Io => Flow::Continue,
        _ => Flow::Fail(LoadError::Stream(fault)),
    }
}

/// The track that is decoded: the one wanted, where the stream has a track
/// at that index; else the first that names a codec, if there is one.
pub open spec fn selected_track(tracks: Seq<TrackInfo>, wanted: Option<usize>) -> Option<usize> {
    match wanted {
        Some(index) if index < tracks.len() => Some(index),
        _ => first_coded(tracks, 0),
    }
}

/// The first track from index `from` on that names a codec.
pub open spec fn first_coded(tracks: Seq<TrackInfo>, from: int) -> Option<usize>
    decreases tracks.len() - from,
{
    if from < 0 || from >= tracks.len() {
        None
    } else if tracks[from].coded {
        Some(from as usize)
    } else {
        first_coded(tracks, from + 1)
    }
}

/// Sample `i` of the first `n` channels mixed down: their sum, which wraps
/// around at 16 bits.
pub open spec fn mixed_sample(planes: Seq<Vec<u16>>, i: int, n: int) -> u16
    decreases n,
{
    if n <= 1 {
        planes[0]@[i]
    } else {
        mixed_sample(planes, i, n - 1).wrapping_add(planes[n - 1]@[i])
    }
}

/// The mono samples of a packet: those of the channel picked, or, where
/// none is picked, all channels mixed down.
pub open spec fn mixed(decoded: Decoded, channel: Option<usize>) -> Seq<u16> {
    match channel {
        Some(picked) => decoded.planes@[picked as int]@,
        None => Seq::new(
            decoded.frames as nat,
            |i: int| mixed_sample(decoded.planes@, i, decoded.planes@.len() as int),
        ),
    }
}

/// The channel that is read first: the one picked, else the first.
pub open spec fn first_channel(channel: Option<usize>) -> usize {
    match channel {
        Some(picked) => picked,
        None => 0,
    }
}

impl Decoded {
    /// Whether every channel holds `frames` samples.
    pub open spec fn wf(&self) -> bool {
        forall|c: int|
            0 <= c < self.planes@.len() ==> (#[trigger] self.planes@[c])@.len() == self.frames
    }
}

/// What a loader holds.
pub struct LoaderView {
    /// The path of the file that is meant.
    pub file_path: Seq<char>,
    /// The gain; it is kept, and not applied.
    pub gain: Option<Double>,
    /// The channel that is read; `None` mixes all channels down.
    pub channel: Option<usize>,
    /// The track that is wanted; `None` takes the first that can be decoded.
    pub track: Option<usize>,
    /// The sample rate of what was loaded.
    pub sample_rate: Option<u32>,
    /// The samples that were loaded.
    pub data: Seq<u16>,
}

/// Audio input: loads a plain WAVE stream and mixes it down to one channel
/// of unsigned 16-bit samples.
pub struct Loader {
    file_path: String,
    gain: Option<Double>,
    channel: Option<usize>,
    track: Option<usize>,
    sample_rate: Option<u32>,
    data: Vec<u16>,
}

impl View for Loader {
    type V = LoaderView;

    closed spec fn view(&self) -> LoaderView {
        LoaderView {
            file_path: self.file_path@,
            gain: self.gain,
            channel: self.channel,
            track: self.track,
            sample_rate: self.sample_rate,
            data: self.data@,
        }
    }
}

impl Loader {
    /// A loader with an empty path that mixes all channels of the first
    /// track down, and has loaded nothing.
    pub fn new() -> (r: Loader)
        ensures
            r@ == (LoaderView {
                file_path: Seq::empty(),
                gain: None,
                channel: None,
                track: None,
                sample_rate: None,
                data: Seq::empty(),
            }),
    {
        Loader {
            file_path: String::new(),
            gain: None,
            channel: None,
            track: None,
            sample_rate: None,
            data: Vec::new(),
        }
    }

    /// Sets the path of the file that is meant.
    pub fn file(&mut self, file_path: String) -> (r: &mut Self)
        ensures
            r@ == (LoaderView { file_path: file_path@, ..old(self)@ }),
            *final(self) == *final(r),
    {
        self.file_path = file_path;
        self
    }

    /// Sets the gain.
    pub fn gain(&mut self, gain: Double) -> (r: &mut Self)
        ensures
            r@ == (LoaderView { gain: Some(gain), ..old(self)@ }),
            *final(self) == *final(r),
    {
        self.gain = Some(gain);
        self
    }

    /// Picks the one channel that is read.
    pub fn channel(&mut self, channel: usize) -> (r: &mut Self)
        ensures
            r@ == (LoaderView { channel: Some(channel), ..old(self)@ }),
            *final(self) == *final(r),
    {
        self.channel = Some(channel);
        self
    }

    /// Has all channels mixed down.
    pub fn mono(&mut self) -> (r: &mut Self)
        ensures
            r@ == (LoaderView { channel: None, ..old(self)@ }),
            *final(self) == *final(r),
    {
        self.channel = None;
        self
    }

    /// The sample with the gain applied: the sample itself.
    pub fn apply_gain(&self, x: u16) -> (r: u16)
        ensures
            r == x,
    {
        x
    }

    /// The samples that were loaded.
    pub fn data(&self) -> (r: Vec<u16>)
        ensures
            r@ == self@.data,
    {
        self.data.clone()
    }

    /// The sample rate of what was loaded.
    pub fn sample_rate(&self) -> (r: Option<u32>)
        ensures
            r == self@.sample_rate,
    {
        self.sample_rate
    }

    /// The path of the file that is meant.
    pub fn file_path(&self) -> (r: &String)
        ensures
            r@ == self@.file_path,
    {
        &self.file_path
    }

    /// Whether the bytes are a stream that the loader takes: whether they
    /// begin as a plain WAVE file.
    pub fn admits(bytes: &Vec<u8>) -> (r: bool)
        ensures
            r == plain_wave(bytes@),
    {
        bytes.len() >= 44 && bytes[0] == 0x52 && bytes[1] == 0x49 && bytes[2] == 0x46 && bytes[3]
            == 0x46 && bytes[8] == 0x57 && bytes[9] == 0x41 && bytes[10] == 0x56 && bytes[11]
            == 0x45 && bytes[12] == 0x66 && bytes[13] == 0x6D && bytes[14] == 0x74 && bytes[15]
            == 0x20 && bytes[16] == 16 && bytes[17] == 0 && bytes[18] == 0 && bytes[19] == 0
            && bytes[20] == 1 && bytes[21] == 0 && !(bytes[24] == 0 && bytes[25] == 0 && bytes[26]
            == 0 && bytes[27] == 0) && bytes[36] == 0x64 && bytes[37] == 0x61 && bytes[38] == 0x74
            && bytes[39] == 0x61
    }

    /// How loading goes on where no packet could be read.
    pub fn after_read(fault: Fault) -> (r: Flow)
        ensures
            r == flow_after_read(fault),
    {
        match fault {
            Fault::ResetRequired | Fault::Decode | Fault::Io => Flow::Finish,
            _ => Flow::Fail(LoadError::Stream(fault)),
        }
    }

    /// How loading goes on where a packet could not be decoded.
    pub fn after_decode(fault: Fault) -> (r: Flow)
        ensures
            r == flow_after_decode(fault),
    {
        match fault {
            Fault::ResetRequired => Flow::Finish,
            Fault::Decode | Fault::Io => Flow::Continue,
            _ => Flow::Fail(LoadError::Stream(fault)),
        }
    }

    /// The track that is decoded.
    pub fn select_track(tracks: &Vec<TrackInfo>, wanted: Option<usize>) -> (r: Option<usize>)
        ensures
            r == selected_track(tracks@, wanted),
            r matches Some(index) ==> index < tracks@.len(),
    {
        if let Some(index) = wanted {
            if index < tracks.len() {
                return Some(index);
            }
        }
        let mut i: usize = 0;
        while i < tracks.len()
            invariant
                i <= tracks.len(),
                selected_track(tracks@, wanted) == first_coded(tracks@, 0),
                first_coded(tracks@, 0) == first_coded(tracks@, i as int),
            decreases tracks.len() - i,
        {
            if tracks[i].coded {
                assert(first_coded(tracks@, i as int) == Some(i));
                return Some(i);
            }
            assert(first_coded(tracks@, i as int) == first_coded(tracks@, i + 1));
            i = i + 1;
        }
        None
    }

    /// The mono samples of a packet, and `None` where the packet has no
    /// channel of the index that is read first.
    pub fn mix(&self, decoded: &Decoded) -> (r: Option<Vec<u16>>)
        requires
            decoded.wf(),
        ensures
            first_channel(self@.channel) >= decoded.planes@.len() <==> r is None,
            r matches Some(samples) ==> samples@ == mixed(*decoded, self@.channel),
    {
        let first = match self.channel {
            Some(picked) => picked,
            None => 0,
        };
        if first >= decoded.planes.len() {
            return None;
        }
        let len = decoded.frames;
        let mut buf: Vec<u16> = Vec::new();
        let mut i: usize = 0;
        while i < len
            invariant
                i <= len,
                len == decoded.frames,
                decoded.wf(),
                first < decoded.planes@.len(),
                buf@ == decoded.planes@[first as int]@.take(i as int),
            decreases len - i,
        {
            buf.push(self.apply_gain(decoded.planes[first][i]));
            assert(buf@ =~= decoded.planes@[first as int]@.take(i + 1));
            i = i + 1;
        }
        assert(buf@ =~= decoded.planes@[first as int]@);
        if self.channel.is_none() {
            let mut ch: usize = 1;
            while ch < decoded.planes.len()
                invariant
                    1 <= ch <= decoded.planes@.len(),
                    len == decoded.frames,
                    decoded.wf(),
                    buf@.len() == len,
                    forall|t: int|
                        0 <= t < len ==> buf@[t] == mixed_sample(decoded.planes@, t, ch as int),
                decreases decoded.planes.len() - ch,
            {
                let mut i: usize = 0;
                while i < len
                    invariant
                        i <= len,
                        1 <= ch < decoded.planes@.len(),
                        len == decoded.frames,
                        decoded.wf(),
                        buf@.len() == len,
                        forall|t: int|
                            0 <= t < i ==> buf@[t] == mixed_sample(
                                decoded.planes@,
                                t,
                                ch as int + 1,
                            ),
                        forall|t: int|
                            i <= t < len ==> buf@[t] == mixed_sample(
                                decoded.planes@,
                                t,
                                ch as int,
                            ),
                    decreases len - i,
                {
                    let sum = buf[i].wrapping_add(self.apply_gain(decoded.planes[ch][i]));
                    buf.set(i, sum);
                    i = i + 1;
                }
                ch = ch + 1;
            }
            assert(buf@ =~= mixed(*decoded, self@.channel));
        }
        Some(buf)
    }

    /// Takes in what one packet held. Where the rate of the packet is not
    /// the rate of what was loaded before, the stream has changed: the
    /// packet is refused with `ResetRequired`. It is refused too where it
    /// has no channel of the index that is read. Else its rate is noted
    /// and its mono samples are appended. A packet that is refused changes
    /// nothing.
    pub fn accept(&mut self, decoded: &Decoded) -> (r: Result<(), LoadError>)
        requires
            decoded.wf(),
        ensures
            r == accepted(old(self)@, *decoded),
            r is Ok ==> final(self)@ == (LoaderView {
                sample_rate: Some(decoded.rate),
                data: old(self)@.data + mixed(*decoded, old(self)@.channel),
                ..old(self)@
            }),
            r is Err ==> final(self)@ == old(self)@,
    {
        if let Some(rate) = self.sample_rate {
            if rate != decoded.rate {
                return Err(LoadError::Stream(Fault::ResetRequired));
            }
        }
        match self.mix(decoded) {
            None => Err(LoadError::Channel),
            Some(mut samples) => {
                self.sample_rate = Some(decoded.rate);
                self.data.append(&mut samples);
                Ok(())
            },
        }
    }

    /// Loads the stream that the bytes hold: the contents of the file at
    /// the path, which the caller has read. The track is probed and chosen,
    /// and its packets are decoded one by one and taken in as `accept`
    /// says, until the stream ends or fails as `after_read` and
    /// `after_decode` say.
    ///
    /// Only a plain WAVE stream is taken (`plain_wave`); every other is
    /// answered with `LoadError::Format` before anything is read of it.
    ///
    /// Whatever the stream holds and however loading ends, the loader then
    /// holds what `took_in` says: what it held, and after it the mono
    /// samples of whole packets of one rate. Where loading fails before the
    /// first packet, it holds what it held. A failure of the stream that is
    /// reported is never one that ends or skips: an end of the stream and
    /// malformed data are not failures of loading.
    pub fn load(&mut self, bytes: Vec<u8>) -> (r: Result<(), LoadError>)
        ensures
            exists|packets: Seq<Decoded>| took_in(old(self)@, final(self)@, packets),
            !plain_wave(bytes@) ==> r == Err::<(), LoadError>(LoadError::Format),
            r == Err::<(), LoadError>(LoadError::Format) || r == Err::<(), LoadError>(
                LoadError::Track,
            ) || r == Err::<(), LoadError>(LoadError::Codec) ==> final(self)@ == old(self)@,
            r matches Err(LoadError::Stream(fault)) ==> fault != Fault::Io && fault
                != Fault::Decode,
    {
        let ghost mut seen: Seq<Decoded> = Seq::empty();
        assert(self@.data =~= self@.data + appended(self@.channel, seen, 0));
        assert(took_in(old(self)@, self@, seen));
        if !Loader::admits(&bytes) {
            return Err(LoadError::Format);
        }
        let ghost given = bytes@;
        let mut source = match probe(bytes) {
            Ok(source) => source,
            Err(_) => {
                return Err(LoadError::Format);
            },
        };
        let list = tracks(&source);
        let index = match Loader::select_track(&list, self.track) {
            Some(index) => index,
            None => {
                return Err(LoadError::Track);
            },
        };
        let track_id = list[index].id;
        let mut codec = match make_decoder(&source, index) {
            Some(Ok(codec)) => codec,
            _ => {
                return Err(LoadError::Codec);
            },
        };
        let mut budget: u64 = u64::MAX;
        while budget > 0
            invariant
                took_in(old(self)@, self@, seen),
                plain_wave(given),
                given == bytes@,
            decreases budget,
        {
            budget = budget - 1;
            let packet = match next_packet(&mut source) {
                Ok(packet) => packet,
                Err(error) => {
                    match Loader::after_read(fault_of(&error)) {
                        Flow::Fail(reason) => {
                            return Err(reason);
                        },
                        _ => {
                            return Ok(());
                        },
                    }
                },
            };
            if packet_track(&packet) == track_id {
                skip_metadata(&mut source);
                match decode(&mut codec, &packet) {
                    Ok(decoded) => {
                        let ghost held = self@;
                        let taken = self.accept(&decoded);
                        if let Err(reason) = taken {
                            return Err(reason);
                        }
                        proof {
                            lemma_appended_prefix(held.channel, seen, decoded, seen.len() as int);
                            assert(self@.data =~= old(self)@.data + appended(
                                held.channel,
                                seen.push(decoded),
                                (seen.len() + 1) as int,
                            ));
                            seen = seen.push(decoded);
                        }
                    },
                    Err(error) => {
                        match Loader::after_decode(fault_of(&error)) {
                            Flow::Fail(reason) => {
                                return Err(reason);
                            },
                            Flow::Finish => {
                                return Ok(());
                            },
                            Flow::Continue => {},
                        }
                    },
                }
            }
        }
        Err(LoadError::Endless)
    }
}

/// The mono samples of the first `n` packets, one packet after the other.
pub open spec fn appended(channel: Option<usize>, packets: Seq<Decoded>, n: int) -> Seq<u16>
    decreases n,
{
    if n <= 0 {
        Seq::empty()
    } else {
        appended(channel, packets, n - 1) + mixed(packets[n - 1], channel)
    }
}

/// Whether a loader that held `before` holds `after` once it has taken in
/// the packets: the settings are kept; the samples are those held before
/// and then the mono samples of the packets; every packet is whole, has
/// the channel that is read, and has the one rate that the loader then
/// holds; and the rate that was held before is kept.
pub open spec fn took_in(before: LoaderView, after: LoaderView, packets: Seq<Decoded>) -> bool {
    &&& after.file_path == before.file_path
    &&& after.gain == before.gain
    &&& after.channel == before.channel
    &&& after.track == before.track
    &&& after.data == before.data + appended(before.channel, packets, packets.len() as int)
    &&& forall|i: int|
        0 <= i < packets.len() ==> {
            &&& (#[trigger] packets[i]).wf()
            &&& first_channel(before.channel) < packets[i].planes@.len()
            &&& after.sample_rate == Some(packets[i].rate)
        }
    &&& before.sample_rate is Some || packets.len() == 0 ==> after.sample_rate
        == before.sample_rate
}

/// The mono samples of the first packets are the same whatever packet
/// follows them.
pub proof fn lemma_appended_prefix(
    channel: Option<usize>,
    packets: Seq<Decoded>,
    next: Decoded,
    n: int,
)
    requires
        n <= packets.len(),
    ensures
        appended(channel, packets.push(next), n) == appended(channel, packets, n),
    decreases n,
{
    if n > 0 {
        lemma_appended_prefix(channel, packets, next, n - 1);
    }
}

/// What `accept` answers for a loader and a packet.
pub open spec fn accepted(loader: LoaderView, decoded: Decoded) -> Result<(), LoadError> {
    if loader.sample_rate is Some && loader.sample_rate != Some(decoded.rate) {
        Err(LoadError::Stream(Fault::ResetRequired))
    } else if first_channel(loader.channel) >= decoded.planes@.len() {
        Err(LoadError::Channel)
    } else {
        Ok(())
    }
}

} // verus!
