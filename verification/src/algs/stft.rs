//! Fast Fourier transform, forward and inverse: how many points of the
//! input are transformed, and whether they can be. The transform itself is
//! real arithmetic, and the caller's, who hands it to `symphonia`.

use vstd::prelude::*;
use crate::double::Double;

verus! {

/// The largest number of points that are read of an input.
pub const MAX_SIZE: usize = 65536;

/// The smallest number of points that the inverse transform takes: below
/// it `symphonia`'s `ifft_inplace` does not return.
pub const MIN_INVERSE_SIZE: usize = 32;

/// Whether `n` is a power of two.
pub open spec fn is_power_of_two(n: int) -> bool
    decreases n,
{
    n == 1 || (n > 1 && n % 2 == 0 && is_power_of_two(n / 2))
}

/// The number of points that are read of an input of `len` points: all of
/// them, and no more than `MAX_SIZE`.
pub open spec fn span_of(len: int) -> int {
    if len < MAX_SIZE {
        len
    } else {
        MAX_SIZE as int
    }
}

/// Between a power of two and its double lies no other power of two.
pub proof fn lemma_power_of_two_gap(a: int, b: int)
    requires
        is_power_of_two(a),
        is_power_of_two(b),
        a <= b < 2 * a,
    ensures
        a == b,
    decreases a,
{
    if a > 1 {
        lemma_power_of_two_gap(a / 2, b / 2);
    }
}

/// `MAX_SIZE` is a power of two.
pub proof fn lemma_max_size_is_power_of_two()
    ensures
        is_power_of_two(MAX_SIZE as int),
{
    reveal_with_fuel(is_power_of_two, 18);
}

/// Whether `n` points can be transformed: `n` is a power of two below
/// `MAX_SIZE`. (`symphonia` numbers the points with 16 bits, so that its
/// transform of `MAX_SIZE` points itself cannot be used.)
pub open spec fn transformable(n: int) -> bool {
    is_power_of_two(n) && n < MAX_SIZE
}

/// The number of points that are read of an input of `len` points, where
/// that number can be transformed.
pub fn points(len: usize) -> (r: Option<usize>)
    ensures
        r == if transformable(span_of(len as int)) {
            Some(span_of(len as int) as usize)
        } else {
            None
        },
{
    let n = if len < MAX_SIZE {
        len
    } else {
        MAX_SIZE
    };
    let mut p: usize = 1;
    while p < n
        invariant
            1 <= p <= MAX_SIZE,
            n <= MAX_SIZE,
            is_power_of_two(p as int),
            forall|q: int| is_power_of_two(q) && q < p ==> q != n,
        decreases MAX_SIZE - p,
    {
        proof {
            assert forall|q: int| is_power_of_two(q) && q < 2 * p implies q != n by {
                if q >= p && q == n {
                    lemma_power_of_two_gap(p as int, q);
                }
            }
            assert(is_power_of_two(2 * p));
            if 2 * p > MAX_SIZE {
                lemma_max_size_is_power_of_two();
                lemma_power_of_two_gap(p as int, MAX_SIZE as int);
            }
        }
        p = 2 * p;
    }
    if p == n && n < MAX_SIZE {
        Some(n)
    } else if p == n {
        None
    } else {
        proof {
            if is_power_of_two(n as int) {
                assert(n < p);
                assert(false);
            }
        }
        None
    }
}

/// Fast Fourier transform of a frame of audio.
pub struct FFT {
    /// Input: the frame; no more than `MAX_SIZE` points of it are read.
    pub frame: Vec<Double>,
    /// Output: the transform, as pairs of the bits of two single-precision
    /// numbers, the real part first.
    pub fft_data: Vec<(u32, u32)>,
}

impl FFT {
    /// A transform with no input and no output.
    pub fn pynew() -> (r: FFT)
        ensures
            r.frame@ == Seq::<Double>::empty(),
            r.fft_data@ == Seq::<(u32, u32)>::empty(),
    {
        FFT { frame: Vec::new(), fft_data: Vec::new() }
    }

    /// A transform with no input and no output.
    pub fn new() -> (r: FFT)
        ensures
            r.frame@ == Seq::<Double>::empty(),
            r.fft_data@ == Seq::<(u32, u32)>::empty(),
    {
        FFT::pynew()
    }

    /// Replaces the frame where a new one is given.
    pub fn pycompute(&mut self, frame: Option<Vec<Double>>)
        ensures
            final(self).frame@ == match frame {
                Some(given) => given@,
                None => old(self).frame@,
            },
            final(self).fft_data == old(self).fft_data,
    {
        if let Some(given) = frame {
            self.frame = given;
        }
    }

    /// The number of points of the frame that are transformed; `None`
    /// where the frame cannot be transformed.
    pub fn points(&self) -> (r: Option<usize>)
        ensures
            r == if transformable(span_of(self.frame@.len() as int)) {
                Some(span_of(self.frame@.len() as int) as usize)
            } else {
                None
            },
    {
        points(self.frame.len())
    }

    /// Stores the transform that the caller computed.
    pub fn compute(&mut self, fft_data: Vec<(u32, u32)>)
        ensures
            final(self).fft_data@ == fft_data@,
            final(self).frame == old(self).frame,
    {
        self.fft_data = fft_data;
    }
}

/// Inverse fast Fourier transform.
pub struct IFFT {
    /// Input: the transform, as pairs of real and imaginary part; no more
    /// than `MAX_SIZE` points of it are read.
    pub fft_data: Vec<(Double, Double)>,
    /// Output: the frame, as the bits of single-precision numbers.
    pub frame: Vec<u32>,
}

impl IFFT {
    /// A transform with no input and no output.
    pub fn pynew() -> (r: IFFT)
        ensures
            r.fft_data@ == Seq::<(Double, Double)>::empty(),
            r.frame@ == Seq::<u32>::empty(),
    {
        IFFT { fft_data: Vec::new(), frame: Vec::new() }
    }

    /// A transform with no input and no output.
    pub fn new() -> (r: IFFT)
        ensures
            r.fft_data@ == Seq::<(Double, Double)>::empty(),
            r.frame@ == Seq::<u32>::empty(),
    {
        IFFT::pynew()
    }

    /// Replaces the input where a new one is given.
    pub fn pycompute(&mut self, fft_data: Option<Vec<(Double, Double)>>)
        ensures
            final(self).fft_data@ == match fft_data {
                Some(given) => given@,
                None => old(self).fft_data@,
            },
            final(self).frame == old(self).frame,
    {
        if let Some(given) = fft_data {
            self.fft_data = given;
        }
    }

    /// The number of points of the input that are transformed; `None`
    /// where the input cannot be transformed, or holds fewer points than
    /// `MIN_INVERSE_SIZE`.
    pub fn points(&self) -> (r: Option<usize>)
        ensures
            r == if transformable(span_of(self.fft_data@.len() as int)) && span_of(
                self.fft_data@.len() as int,
            ) >= MIN_INVERSE_SIZE {
                Some(span_of(self.fft_data@.len() as int) as usize)
            } else {
                None
            },
    {
        match points(self.fft_data.len()) {
            Some(n) if n >= MIN_INVERSE_SIZE => Some(n),
            _ => None,
        }
    }

    /// Stores the frame that the caller computed.
    pub fn compute(&mut self, frame: Vec<u32>)
        ensures
            final(self).frame@ == frame@,
            final(self).fft_data == old(self).fft_data,
    {
        self.frame = frame;
    }
}

} // verus!
