use muslib::algs::stft::{points, FFT, IFFT, MAX_SIZE, MIN_INVERSE_SIZE};
use muslib::double::Double;

fn d(x: f64) -> Double {
    Double::from_bits(x.to_bits())
}

fn f(x: Double) -> f64 {
    f64::from_bits(x.to_bits())
}

/// The forward transform of the points that the library reads.
fn forward(core: &mut FFT) -> Vec<(f32, f32)> {
    let n = core.points().expect("the frame cannot be transformed");
    let mut buf: Vec<symphonia::core::dsp::complex::Complex> =
        core.frame[..n].iter().map(|x| symphonia::core::dsp::complex::Complex::new(f(*x) as f32, 0.0)).collect();
    symphonia::core::dsp::fft::Fft::new(n).fft_inplace(&mut buf);
    core.compute(buf.iter().map(|x| (x.re.to_bits(), x.im.to_bits())).collect());
    core.fft_data.iter().map(|x| (f32::from_bits(x.0), f32::from_bits(x.1))).collect()
}

/// The inverse transform of the points that the library reads.
fn inverse(core: &mut IFFT) -> Vec<f32> {
    let n = core.points().expect("the input cannot be transformed");
    let mut buf: Vec<symphonia::core::dsp::complex::Complex> = core.fft_data[..n]
        .iter()
        .map(|x| symphonia::core::dsp::complex::Complex::new(f(x.0) as f32, f(x.1) as f32))
        .collect();
    symphonia::core::dsp::fft::Fft::new(n).ifft_inplace(&mut buf);
    core.compute(buf.iter().map(|x| x.re.to_bits()).collect());
    core.frame.iter().map(|x| f32::from_bits(*x)).collect()
}

#[test]
fn fft() {
    let mut core = FFT::new();
    assert!(core.frame.is_empty());
    assert!(core.fft_data.is_empty());
    assert_eq!(core.points(), None);

    let mut frame = vec![d(0.0); 8];
    frame[0] = d(1.0);
    core.pycompute(Some(frame));
    assert_eq!(core.points(), Some(8));
    let spectrum = forward(&mut core);
    assert_eq!(spectrum.len(), 8);
    for (re, im) in spectrum {
        assert!((re - 1.0).abs() < 1e-6);
        assert!(im.abs() < 1e-6);
    }

    core.pycompute(Some(vec![d(1.0); 4]));
    let spectrum = forward(&mut core);
    assert!((spectrum[0].0 - 4.0).abs() < 1e-6);
    for (re, im) in &spectrum[1..] {
        assert!(re.abs() < 1e-6 && im.abs() < 1e-6);
    }

    core.pycompute(None);
    assert_eq!(core.frame.len(), 4);
}

#[test]
fn ifft() {
    let mut core = IFFT::new();
    assert!(core.fft_data.is_empty());
    assert!(core.frame.is_empty());
    assert_eq!(core.points(), None);

    core.pycompute(Some(vec![(d(1.0), d(0.0)); 8]));
    assert_eq!(core.points(), None);
    core.pycompute(Some(vec![(d(1.0), d(0.0)); 16]));
    assert_eq!(core.points(), None);
    assert_eq!(MIN_INVERSE_SIZE, 32);

    core.pycompute(Some(vec![(d(1.0), d(0.0)); 32]));
    assert_eq!(core.points(), Some(32));
    let frame = inverse(&mut core);
    assert_eq!(frame.len(), 32);
    assert!((frame[0] - 1.0).abs() < 1e-6);
    for x in &frame[1..] {
        assert!(x.abs() < 1e-6);
    }

    core.pycompute(None);
    assert_eq!(core.fft_data.len(), 32);

    core.pycompute(Some(vec![(d(1.0), d(0.0)); 33]));
    assert_eq!(core.points(), None);
    core.pycompute(Some(vec![(d(1.0), d(0.0)); 65536]));
    assert_eq!(core.points(), None);
    core.pycompute(Some(vec![(d(0.0), d(0.0)); 32768]));
    assert_eq!(core.points(), Some(32768));
    assert_eq!(inverse(&mut core), vec![0.0; 32768]);
}

#[test]
fn fft_then_ifft_gives_the_frame_back() {
    let samples: Vec<f64> = (0..64).map(|i| ((i * 37) % 17) as f64 / 8.0 - 1.0).collect();
    let mut forward_core = FFT::pynew();
    forward_core.pycompute(Some(samples.iter().map(|x| d(*x)).collect()));
    let spectrum = forward(&mut forward_core);
    let mut inverse_core = IFFT::pynew();
    inverse_core
        .pycompute(Some(spectrum.iter().map(|x| (d(x.0 as f64), d(x.1 as f64))).collect()));
    let frame = inverse(&mut inverse_core);
    assert_eq!(frame.len(), 64);
    for (got, expected) in frame.iter().zip(samples.iter()) {
        assert!((*got as f64 - expected).abs() < 1e-5);
    }
}

#[test]
fn points_are_the_powers_of_two_up_to_the_limit() {
    assert_eq!(MAX_SIZE, symphonia::core::dsp::fft::Fft::MAX_SIZE);
    assert_eq!(points(0), None);
    assert_eq!(points(1), Some(1));
    assert_eq!(points(2), Some(2));
    assert_eq!(points(3), None);
    assert_eq!(points(4), Some(4));
    assert_eq!(points(6), None);
    assert_eq!(points(1023), None);
    assert_eq!(points(1024), Some(1024));
    assert_eq!(points(32768), Some(32768));
    assert_eq!(points(65535), None);
    assert_eq!(points(65536), None);
    assert_eq!(points(65537), None);
    assert_eq!(points(1_000_000), None);
    for len in 0..5000_usize {
        let expected = if len.is_power_of_two() { Some(len) } else { None };
        assert_eq!(points(len), expected);
    }
}

#[test]
fn longest_frame_that_is_transformed() {
    let mut core = FFT::new();
    let mut frame = vec![d(0.0); 32768];
    frame[0] = d(1.0);
    core.pycompute(Some(frame));
    assert_eq!(core.points(), Some(32768));
    let spectrum = forward(&mut core);
    assert_eq!(spectrum.len(), 32768);
    assert!((spectrum[20000].0 - 1.0).abs() < 1e-4);
    core.pycompute(Some(vec![d(0.0); 70000]));
    assert_eq!(core.points(), None);
}
