//! Music synthesis and processing: tonal analysis with the harmonic pitch
//! class profile, the Fourier transform, a synthesizer for simple waveforms
//! and a mixer that loads and writes mono tracks.
//!
//! This library holds the logic of those algorithms and proves it: every
//! function states what it returns, and is verified against that statement.
//! It never computes with real numbers. A double is carried as the 64 bits
//! that encode it (`double::Double`), is compared and rounded by integer
//! arithmetic on those bits, and is otherwise handed through: logarithms,
//! cosines, sums and quotients are the caller's, who passes in what it
//! computed and is told how to go on. Decoding and encoding of audio is
//! done by `symphonia` and `hound`, on bytes in memory, and only on such as
//! they are known to return on; reading and writing the files is the
//! caller's as well.

pub mod algs;
pub mod double;
pub mod mixer;
