use muslib::double::Double;
use muslib::mixer::{Decoded, Fault, Flow, LoadError, Loader, TrackInfo, Writer};

fn wav(channels: u16, rate: u32, samples: &[i16]) -> Vec<u8> {
    let spec = hound::WavSpec {
        channels,
        sample_rate: rate,
        bits_per_sample: 16,
        sample_format: hound::SampleFormat::Int,
    };
    let mut cursor = std::io::Cursor::new(Vec::new());
    {
        let mut writer = hound::WavWriter::new(&mut cursor, spec).unwrap();
        for sample in samples {
            writer.write_sample(*sample).unwrap();
        }
        writer.finalize().unwrap();
    }
    cursor.into_inner()
}

fn unsigned(sample: i16) -> u16 {
    (sample as i32 + 32768) as u16
}

#[test]
fn writer_makes_a_mono_wave_file() {
    let mut writer = Writer::new();
    writer.sample_rate(8000).file(String::from("tone.wav"));
    assert_eq!(writer.file_path(), "tone.wav");
    let bytes = writer.write(&vec![32768, 32769, 0, 65535]).unwrap();
    let expected: Vec<u8> = vec![
        b'R', b'I', b'F', b'F', 44, 0, 0, 0, b'W', b'A', b'V', b'E', b'f', b'm', b't', b' ', 16, 0,
        0, 0, 1, 0, 1, 0, 0x40, 0x1F, 0, 0, 0x80, 0x3E, 0, 0, 2, 0, 16, 0, b'd', b'a', b't', b'a',
        8, 0, 0, 0, 0x00, 0x00, 0x01, 0x00, 0x00, 0x80, 0xFF, 0x7F,
    ];
    assert_eq!(bytes, expected);
}

#[test]
fn writer_output_reads_back_with_hound() {
    let data: Vec<u16> = (0..3000).map(|i| (i * 21 % 65536) as u16).collect();
    let bytes = Writer::new().write(&data).unwrap();
    let mut reader = hound::WavReader::new(std::io::Cursor::new(bytes)).unwrap();
    assert_eq!(reader.spec().channels, 1);
    assert_eq!(reader.spec().sample_rate, 44100);
    assert_eq!(reader.spec().bits_per_sample, 16);
    let read: Vec<i16> = reader.samples::<i16>().map(|s| s.unwrap()).collect();
    let expected: Vec<i16> = data.iter().map(|x| (*x as i32 - 32768) as i16).collect();
    assert_eq!(read, expected);
}

#[test]
fn writer_of_no_samples_makes_a_header() {
    let bytes = Writer::new().write(&Vec::new()).unwrap();
    assert_eq!(bytes.len(), 44);
    assert_eq!(bytes, wav(1, 44100, &[]));
}

#[test]
fn writer_refuses_rates_that_no_file_holds() {
    let mut writer = Writer::new();
    assert_eq!(writer.sample_rate(0).write(&vec![1, 2, 3]), Err(()));
    assert_eq!(writer.sample_rate(u32::MAX).write(&vec![1, 2, 3]), Err(()));
    assert_eq!(writer.sample_rate(0x8000_0000).write(&vec![1, 2, 3]), Err(()));
    assert!(writer.sample_rate(0x7FFF_FFFF).write(&vec![1, 2, 3]).is_ok());
    assert!(writer.sample_rate(1).write(&vec![1, 2, 3]).is_ok());
}

#[test]
fn to_signed_moves_samples_down_by_half_the_range() {
    assert_eq!(
        Writer::to_signed(&vec![0, 1, 32767, 32768, 32769, 65535]),
        vec![-32768, -32767, -1, 0, 1, 32767]
    );
    for sample in [0_u16, 7, 0x7FFF, 0x8000, 0xABCD, 0xFFFF] {
        assert_eq!(Writer::to_signed(&vec![sample]), vec![(sample ^ 0x8000) as i16]);
    }
    assert_eq!(Writer::to_signed(&Vec::new()), Vec::<i16>::new());
}

#[test]
fn written_maps_the_encoders_answer() {
    assert_eq!(Writer::written(Some(vec![1, 2])), Ok(vec![1, 2]));
    assert_eq!(Writer::written(None), Err(()));
}

#[test]
fn loader_starts_empty_and_keeps_its_settings() {
    let mut loader = Loader::new();
    assert!(loader.data().is_empty());
    assert_eq!(loader.sample_rate(), None);
    assert_eq!(loader.file_path(), "");
    loader.file(String::from("a.wav")).gain(Double::from_bits(2.0_f64.to_bits())).channel(1).mono();
    assert_eq!(loader.file_path(), "a.wav");
    assert_eq!(loader.apply_gain(1234), 1234);
}

#[test]
fn loader_reads_back_what_the_writer_wrote() {
    let data: Vec<u16> = (0..5000).map(|i| (i * 13 % 65536) as u16).collect();
    let mut writer = Writer::new();
    let bytes = writer.sample_rate(22050).write(&data).unwrap();
    let mut loader = Loader::new();
    assert_eq!(loader.load(bytes), Ok(()));
    assert_eq!(loader.sample_rate(), Some(22050));
    assert_eq!(loader.data(), data);
}

#[test]
fn loader_appends_to_what_it_holds() {
    let first = wav(1, 8000, &[1, 2, 3]);
    let second = wav(1, 8000, &[-4, -5]);
    let mut loader = Loader::new();
    assert_eq!(loader.load(first), Ok(()));
    assert_eq!(loader.load(second), Ok(()));
    assert_eq!(
        loader.data(),
        vec![unsigned(1), unsigned(2), unsigned(3), unsigned(-4), unsigned(-5)]
    );
    // Another rate than that of what is held is a changed stream.
    let third = wav(1, 16000, &[6]);
    assert_eq!(loader.load(third), Err(LoadError::Stream(Fault::ResetRequired)));
    assert_eq!(loader.data().len(), 5);
    assert_eq!(loader.sample_rate(), Some(8000));
}

#[test]
fn loader_mixes_the_channels_down() {
    let frames: Vec<(i16, i16)> = vec![(100, -50), (-32768, -32768), (32767, 32767), (0, 0), (5, 7)];
    let interleaved: Vec<i16> = frames.iter().flat_map(|(l, r)| vec![*l, *r]).collect();
    let bytes = wav(2, 48000, &interleaved);

    let mut loader = Loader::new();
    assert_eq!(loader.load(bytes.clone()), Ok(()));
    assert_eq!(loader.sample_rate(), Some(48000));
    let expected: Vec<u16> =
        frames.iter().map(|(l, r)| unsigned(*l).wrapping_add(unsigned(*r))).collect();
    assert_eq!(loader.data(), expected);
    assert_eq!(expected[0], 50);

    let mut left = Loader::new();
    left.channel(0);
    assert_eq!(left.load(bytes.clone()), Ok(()));
    assert_eq!(left.data(), frames.iter().map(|(l, _)| unsigned(*l)).collect::<Vec<u16>>());

    let mut right = Loader::new();
    right.channel(1);
    assert_eq!(right.load(bytes.clone()), Ok(()));
    assert_eq!(right.data(), frames.iter().map(|(_, r)| unsigned(*r)).collect::<Vec<u16>>());

    let mut none = Loader::new();
    none.channel(2);
    assert_eq!(none.load(bytes.clone()), Err(LoadError::Channel));
    assert!(none.data().is_empty());
    assert_eq!(none.sample_rate(), None);

    let mut back = Loader::new();
    back.channel(2).mono();
    assert_eq!(back.load(bytes), Ok(()));
    assert_eq!(back.data(), expected);
}

#[test]
fn loader_refuses_what_is_no_stream() {
    let mut loader = Loader::new();
    assert_eq!(loader.load(Vec::new()), Err(LoadError::Format));
    assert_eq!(loader.load(vec![7; 5000]), Err(LoadError::Format));
    assert!(loader.data().is_empty());
    assert_eq!(loader.sample_rate(), None);
}

#[test]
fn loader_loads_an_empty_track() {
    let mut loader = Loader::new();
    assert_eq!(loader.load(wav(1, 8000, &[])), Ok(()));
    assert!(loader.data().is_empty());
    assert_eq!(loader.sample_rate(), None);
}

#[test]
fn flow_after_a_failure() {
    assert_eq!(Loader::after_read(Fault::Io), Flow::Finish);
    assert_eq!(Loader::after_read(Fault::Decode), Flow::Finish);
    assert_eq!(Loader::after_read(Fault::ResetRequired), Flow::Finish);
    assert_eq!(Loader::after_read(Fault::Seek), Flow::Fail(LoadError::Stream(Fault::Seek)));
    assert_eq!(
        Loader::after_read(Fault::Unsupported),
        Flow::Fail(LoadError::Stream(Fault::Unsupported))
    );
    assert_eq!(Loader::after_read(Fault::Limit), Flow::Fail(LoadError::Stream(Fault::Limit)));

    assert_eq!(Loader::after_decode(Fault::Io), Flow::Continue);
    assert_eq!(Loader::after_decode(Fault::Decode), Flow::Continue);
    assert_eq!(Loader::after_decode(Fault::ResetRequired), Flow::Finish);
    assert_eq!(Loader::after_decode(Fault::Seek), Flow::Fail(LoadError::Stream(Fault::Seek)));
    assert_eq!(
        Loader::after_decode(Fault::Unsupported),
        Flow::Fail(LoadError::Stream(Fault::Unsupported))
    );
    assert_eq!(Loader::after_decode(Fault::Limit), Flow::Fail(LoadError::Stream(Fault::Limit)));
}

#[test]
fn track_is_the_one_wanted_or_the_first_with_a_codec() {
    let t = |id: u32, coded: bool| TrackInfo { id, coded };
    let tracks = vec![t(10, false), t(11, true), t(12, true)];
    assert_eq!(Loader::select_track(&tracks, None), Some(1));
    assert_eq!(Loader::select_track(&tracks, Some(0)), Some(0));
    assert_eq!(Loader::select_track(&tracks, Some(2)), Some(2));
    assert_eq!(Loader::select_track(&tracks, Some(3)), Some(1));
    assert_eq!(Loader::select_track(&vec![t(1, false), t(2, false)], None), None);
    assert_eq!(Loader::select_track(&vec![t(1, false), t(2, false)], Some(9)), None);
    assert_eq!(Loader::select_track(&vec![t(1, false), t(2, false)], Some(1)), Some(1));
    assert_eq!(Loader::select_track(&Vec::new(), None), None);
    assert_eq!(Loader::select_track(&Vec::new(), Some(0)), None);
}

#[test]
fn mix_sums_the_channels_and_wraps() {
    let decoded = Decoded {
        rate: 8000,
        frames: 3,
        planes: vec![vec![1, 40000, 65535], vec![10, 30000, 1], vec![100, 5, 0]],
    };
    let mut loader = Loader::new();
    assert_eq!(loader.mix(&decoded), Some(vec![111, 4469, 0]));
    loader.channel(1);
    assert_eq!(loader.mix(&decoded), Some(vec![10, 30000, 1]));
    loader.channel(2);
    assert_eq!(loader.mix(&decoded), Some(vec![100, 5, 0]));
    loader.channel(3);
    assert_eq!(loader.mix(&decoded), None);
    let silent = Decoded { rate: 8000, frames: 0, planes: Vec::new() };
    assert_eq!(loader.mono().mix(&silent), None);
}

#[test]
fn accept_takes_packets_of_one_rate() {
    let packet = |rate: u32, samples: Vec<u16>| Decoded {
        rate,
        frames: samples.len(),
        planes: vec![samples],
    };
    let mut loader = Loader::new();
    assert_eq!(loader.accept(&packet(8000, vec![1, 2])), Ok(()));
    assert_eq!(loader.sample_rate(), Some(8000));
    assert_eq!(loader.accept(&packet(8000, vec![3])), Ok(()));
    assert_eq!(loader.data(), vec![1, 2, 3]);
    assert_eq!(
        loader.accept(&packet(44100, vec![4])),
        Err(LoadError::Stream(Fault::ResetRequired))
    );
    assert_eq!(loader.data(), vec![1, 2, 3]);
    assert_eq!(loader.sample_rate(), Some(8000));
    loader.channel(1);
    assert_eq!(loader.accept(&packet(8000, vec![5])), Err(LoadError::Channel));
    assert_eq!(loader.data(), vec![1, 2, 3]);
}

fn ogg_checksum(bytes: &[u8]) -> u32 {
    let mut sum: u32 = 0;
    for byte in bytes {
        sum ^= (*byte as u32) << 24;
        for _ in 0..8 {
            sum = if sum & 0x8000_0000 != 0 { (sum << 1) ^ 0x04C1_1DB7 } else { sum << 1 };
        }
    }
    sum
}

fn ogg_page(kind: u8, granule: u64, sequence: u32, payload: &[u8]) -> Vec<u8> {
    let mut page = Vec::new();
    page.extend_from_slice(b"OggS");
    page.push(0);
    page.push(kind);
    page.extend_from_slice(&granule.to_le_bytes());
    page.extend_from_slice(&7_u32.to_le_bytes());
    page.extend_from_slice(&sequence.to_le_bytes());
    page.extend_from_slice(&[0, 0, 0, 0]);
    page.push(1);
    page.push(payload.len() as u8);
    page.extend_from_slice(payload);
    let sum = ogg_checksum(&page);
    page[22..26].copy_from_slice(&sum.to_le_bytes());
    page
}

/// The first 44 bytes of a WAVE file of the plainest form, with the given
/// fields, and the data after them.
fn plain(
    riff_len: u32,
    channels: u16,
    rate: u32,
    block_align: u16,
    bits: u16,
    data_len: u32,
    data: &[u8],
) -> Vec<u8> {
    let mut bytes = Vec::new();
    bytes.extend_from_slice(b"RIFF");
    bytes.extend_from_slice(&riff_len.to_le_bytes());
    bytes.extend_from_slice(b"WAVEfmt ");
    bytes.extend_from_slice(&16_u32.to_le_bytes());
    bytes.extend_from_slice(&1_u16.to_le_bytes());
    bytes.extend_from_slice(&channels.to_le_bytes());
    bytes.extend_from_slice(&rate.to_le_bytes());
    bytes.extend_from_slice(&rate.wrapping_mul(block_align as u32).to_le_bytes());
    bytes.extend_from_slice(&block_align.to_le_bytes());
    bytes.extend_from_slice(&bits.to_le_bytes());
    bytes.extend_from_slice(b"data");
    bytes.extend_from_slice(&data_len.to_le_bytes());
    bytes.extend_from_slice(data);
    bytes
}

#[test]
fn admits_plain_wave_streams() {
    assert!(Loader::admits(&wav(1, 8000, &[1, 2, 3])));
    assert!(Loader::admits(&wav(2, 44100, &[])));
    assert!(Loader::admits(&Writer::new().write(&vec![7, 8]).unwrap()));
    assert!(Loader::admits(&plain(36, 1, 1, 2, 16, 0, &[])));
    assert!(Loader::admits(&plain(0, 0, 0x0100_0000, 0, 0, u32::MAX, &[9; 3])));

    assert!(!Loader::admits(&Vec::new()));
    assert!(!Loader::admits(&vec![0; 44]));
    // One byte short of the header.
    assert!(!Loader::admits(&wav(1, 8000, &[])[..43].to_vec()));
    // A sample rate of zero.
    assert!(!Loader::admits(&plain(36, 1, 0, 2, 16, 0, &[])));
    // Each mark, the length of the format chunk and the format, one byte off.
    let good = wav(1, 8000, &[1, 2, 3]);
    for at in [0, 1, 2, 3, 8, 9, 10, 11, 12, 13, 14, 15, 16, 17, 18, 19, 20, 21, 36, 37, 38, 39] {
        let mut bad = good.clone();
        bad[at] ^= 0x40;
        assert!(!Loader::admits(&bad), "byte {}", at);
    }
    // What the header leaves open.
    for at in [4, 5, 6, 7, 22, 23, 28, 29, 30, 31, 32, 33, 34, 35, 40, 41, 42, 43, 44, 45] {
        let mut other = good.clone();
        other[at] ^= 0x40;
        assert!(Loader::admits(&other), "byte {}", at);
    }
}

#[test]
fn loader_takes_plain_wave_streams_only() {
    let refused = |stream: Vec<u8>| {
        let mut loader = Loader::new();
        assert!(!Loader::admits(&stream));
        assert_eq!(loader.load(stream), Err(LoadError::Format));
        assert!(loader.data().is_empty());
        assert_eq!(loader.sample_rate(), None);
    };

    // An Ogg stream.
    let mut head = Vec::new();
    head.extend_from_slice(b"OpusHead");
    head.extend_from_slice(&[1, 2, 0, 0]);
    head.extend_from_slice(&48000_u32.to_le_bytes());
    head.extend_from_slice(&[0, 0, 0]);
    let mut stream = ogg_page(2, 0, 0, &head);
    stream.extend(ogg_page(4, 960, 1, &[0xFC, 0xFF, 0xFE]));
    stream.extend(vec![0; 64]);
    refused(stream);

    // A WAVE file of the extensible kind whose widths are both 0.
    let mut stream = Vec::new();
    stream.extend_from_slice(b"RIFF");
    stream.extend_from_slice(&60_u32.to_le_bytes());
    stream.extend_from_slice(b"WAVEfmt ");
    stream.extend_from_slice(&40_u32.to_le_bytes());
    stream.extend_from_slice(&0xFFFE_u16.to_le_bytes());
    stream.extend_from_slice(&1_u16.to_le_bytes());
    stream.extend_from_slice(&8000_u32.to_le_bytes());
    stream.extend_from_slice(&0_u32.to_le_bytes());
    stream.extend_from_slice(&[0, 0, 0, 0, 22, 0, 0, 0, 1, 0, 0, 0]);
    stream.extend_from_slice(&[
        0x01, 0x00, 0x00, 0x00, 0x00, 0x00, 0x10, 0x00, 0x80, 0x00, 0x00, 0xaa, 0x00, 0x38, 0x9b,
        0x71,
    ]);
    stream.extend_from_slice(b"data");
    stream.extend_from_slice(&0_u32.to_le_bytes());
    refused(stream);

    // What hound writes for 24 bits is of the extensible kind too.
    let spec = hound::WavSpec {
        channels: 1,
        sample_rate: 8000,
        bits_per_sample: 24,
        sample_format: hound::SampleFormat::Int,
    };
    let mut cursor = std::io::Cursor::new(Vec::new());
    {
        let mut writer = hound::WavWriter::new(&mut cursor, spec).unwrap();
        writer.write_sample(5_i32).unwrap();
        writer.finalize().unwrap();
    }
    refused(cursor.into_inner());

    // A compressed format with a block too short for its channels.
    let mut stream = plain(100, 2, 8000, 4, 4, 0, &[0; 64]);
    stream[20] = 2;
    refused(stream);

    // A plain header with a sample rate of zero.
    refused(plain(36, 1, 0, 2, 16, 0, &[]));

    // A plain header after a byte of something else.
    let mut stream = vec![0];
    stream.extend(wav(1, 8000, &[1, 2, 3]));
    refused(stream);
}

#[test]
fn loader_answers_every_plain_header() {
    // Fields that the reader of the stream refuses.
    for (channels, bits) in [(0, 16), (27, 16), (33, 16), (1, 0), (1, 12), (1, 64), (2, 4)] {
        let mut loader = Loader::new();
        let stream = plain(44, channels, 8000, 2, bits, 8, &[1, 0, 2, 0, 3, 0, 4, 0]);
        assert_eq!(loader.load(stream), Err(LoadError::Format));
        assert!(loader.data().is_empty());
    }
    // A length of the whole that leaves no room for the chunks.
    for riff_len in [0, 7, 8, 23, 31, 35] {
        let mut loader = Loader::new();
        let stream = plain(riff_len, 1, 8000, 2, 16, 4, &[1, 0, 2, 0]);
        assert_eq!(loader.load(stream), Err(LoadError::Format));
    }
    // A frame of no bytes: nothing can be read, and nothing is loaded.
    let mut loader = Loader::new();
    assert_eq!(loader.load(plain(44, 1, 8000, 0, 16, 8, &[1, 0, 2, 0, 3, 0, 4, 0])), Ok(()));
    assert!(loader.data().is_empty());
    assert_eq!(loader.sample_rate(), None);
    // Data that ends before its length says so: what is there is loaded.
    let mut loader = Loader::new();
    assert_eq!(loader.load(plain(1000, 1, 8000, 2, 16, 64, &[1, 0, 2, 0, 3])), Ok(()));
    assert!(loader.data().len() <= 2);
    // Eight bits are unsigned in the file.
    let mut loader = Loader::new();
    assert_eq!(loader.load(plain(40, 1, 8000, 1, 8, 4, &[0, 128, 255, 1])), Ok(()));
    assert_eq!(loader.data(), vec![0, 0x8000, 0xFF00, 0x0100]);
    assert_eq!(loader.sample_rate(), Some(8000));

    // Any values of the fields that the header leaves open are answered.
    let mut state: u64 = 0x1234_5678_9ABC_DEF1;
    let mut next = move || {
        state = state.wrapping_mul(6364136223846793005).wrapping_add(1442695040888963407);
        (state >> 24) as u32
    };
    for round in 0..3000 {
        let small = round % 2 == 0;
        let riff_len = if small { next() % 200 } else { next() };
        let channels = if small { (next() % 4) as u16 } else { next() as u16 };
        let rate = next() | 1;
        let block_align = if small { (next() % 9) as u16 } else { next() as u16 };
        let bits = if small { [8, 16, 24, 32][(next() % 4) as usize] } else { next() as u16 };
        let data_len = if small { next() % 100 } else { next() };
        let data: Vec<u8> = (0..next() % 120).map(|_| next() as u8).collect();
        let mut stream = plain(riff_len, channels, rate, block_align, bits, data_len, &data);
        // The average rate is open too.
        stream[28..32].copy_from_slice(&next().to_le_bytes());
        assert!(Loader::admits(&stream));
        let mut loader = Loader::new();
        if round % 3 == 0 {
            loader.channel((next() % 3) as usize);
        }
        let outcome = loader.load(stream);
        match outcome {
            Ok(()) => assert!(loader.sample_rate().is_some() || loader.data().is_empty()),
            Err(LoadError::Format) | Err(LoadError::Channel) => assert!(loader.data().is_empty()),
            other => panic!("{:?}", other),
        }
    }
}
