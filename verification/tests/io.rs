use muslib::algs::io::{MonoLoader, MonoWriter};
use muslib::algs::Algorithm;
use muslib::mixer::{LoadError, Loader};

#[test]
fn mono_writer_starts_with_its_rate() {
    let writer = MonoWriter::pynew(8000);
    assert_eq!(writer.sample_rate, 8000);
    assert_eq!(writer.file, "");
    assert!(writer.pcm_data.is_empty());
    assert!(writer.wav_data.is_none());
    let writer = <MonoWriter as Algorithm>::new();
    assert_eq!(writer.sample_rate, 44100);
    assert!(writer.wav_data.is_none());
}

#[test]
fn mono_loader_starts_empty() {
    let loader = MonoLoader::pynew();
    assert_eq!(loader.file, "");
    assert!(loader.source.is_empty());
    assert!(loader.pcm_data.is_none());
    assert_eq!(loader.sample_rate, 0);
    let loader = <MonoLoader as Algorithm>::new();
    assert!(loader.pcm_data.is_none());
    assert_eq!(loader.sample_rate, 0);
}

#[test]
fn mono_writer_then_mono_loader() {
    let samples: Vec<u16> = (0..2500).map(|i| (40000 - i * 7) as u16).collect();
    let mut writer = MonoWriter::pynew(11025);
    writer.pycompute(Some(String::from("out.wav")), Some(samples.clone()));
    assert_eq!(writer.file, "out.wav");
    assert_eq!(writer.pcm_data, samples);
    let bytes = writer.wav_data.clone().unwrap();
    assert_eq!(bytes.len(), 44 + 2 * samples.len());

    let mut loader = MonoLoader::pynew();
    loader.pycompute(Some(String::from("out.wav")), Some(bytes.clone()));
    assert_eq!(loader.file, "out.wav");
    assert_eq!(loader.source, bytes);
    assert_eq!(loader.pcm_data, Some(samples.clone()));
    assert_eq!(loader.sample_rate, 11025);

    // A second call loads the same contents anew.
    loader.__call__();
    assert_eq!(loader.pcm_data, Some(samples));
    assert_eq!(loader.sample_rate, 11025);
}

#[test]
fn mono_writer_call_encodes_what_it_holds() {
    let mut writer = <MonoWriter as Algorithm>::new();
    writer.pcm_data = vec![32768, 0];
    writer.__call__();
    let bytes = writer.wav_data.clone().unwrap();
    assert_eq!(&bytes[0..4], b"RIFF");
    assert_eq!(&bytes[24..28], &44100_u32.to_le_bytes());
    assert_eq!(&bytes[44..], &[0, 0, 0, 0x80]);
    writer.compute();
    assert_eq!(writer.wav_data, Some(bytes));
    assert_eq!(writer.pcm_data, vec![32768, 0]);
}

#[test]
fn mono_writer_without_a_rate_makes_no_file() {
    let mut writer = MonoWriter::pynew(0);
    writer.pycompute(None, Some(vec![1, 2, 3]));
    assert!(writer.wav_data.is_none());
    // Only the low 32 bits of the rate reach the file.
    let mut writer = MonoWriter::pynew(0x1_0000_0000);
    writer.__call__();
    assert!(writer.wav_data.is_none());
    let mut writer = MonoWriter::pynew(0x1_0000_1F40);
    writer.__call__();
    assert_eq!(&writer.wav_data.unwrap()[24..28], &8000_u32.to_le_bytes());
}

#[test]
fn mono_loader_without_a_stream_has_no_output() {
    let mut loader = MonoLoader::pynew();
    loader.sample_rate = 123;
    loader.pycompute(None, Some(vec![1, 2, 3, 4]));
    assert!(loader.pcm_data.is_none());
    assert_eq!(loader.sample_rate, 123);
    loader.__call__();
    assert!(loader.pcm_data.is_none());
}

#[test]
fn take_stores_what_was_loaded() {
    let mut held = Loader::new();
    let bytes = {
        let mut writer = MonoWriter::pynew(8000);
        writer.pycompute(None, Some(vec![5, 6, 7]));
        writer.wav_data.unwrap()
    };
    assert_eq!(held.load(bytes), Ok(()));

    let mut loader = MonoLoader::pynew();
    loader.take(Ok(()), &held);
    assert_eq!(loader.pcm_data, Some(vec![5, 6, 7]));
    assert_eq!(loader.sample_rate, 8000);

    loader.take(Err(LoadError::Codec), &held);
    assert!(loader.pcm_data.is_none());
    assert_eq!(loader.sample_rate, 8000);

    // Nothing was decoded, so the rate is not known.
    loader.take(Ok(()), &Loader::new());
    assert!(loader.pcm_data.is_none());
    assert_eq!(loader.sample_rate, 8000);
}
