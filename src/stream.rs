use vstd::prelude::*;

use crate::sample::{Adsr, Sample};

verus! {

/// The sample rate of every generator, in hertz.
pub const SAMPLE_RATE: u32 = 44100;

/// The sample index that follows `n`; the index wraps around after
/// `u32::MAX` samples.
pub open spec fn next_index(n: u32) -> u32 {
    if n == u32::MAX {
        0
    } else {
        (n + 1) as u32
    }
}

fn bump(n: u32) -> (r: u32)
    ensures
        r == next_index(n),
{
    if n == u32::MAX {
        0
    } else {
        n + 1
    }
}

/// A pull source of samples: a tree of generators and combinators, each of
/// which owns its operands.
#[derive(Debug)]
pub enum Stream<S> {
    SineWave(SineWave<S>),
    SquareWave(SquareWave<S>),
    TriangleWave(TriangleWave<S>),
    SawtoothWave(SawtoothWave<S>),
    ModulatedSineWave(ModulatedSineWave<S>),
    Mix(Mix<S>),
    Const(Const<S>),
    Empty(Empty),
    Silence(Silence),
    Envelope(Envelope<S>),
    Perlin(Perlin<S>),
    WhiteNoise(WhiteNoise),
    Add(Add<S>),
    Multiply(Multiply<S>),
}

/// A sine wave: sample `n` is `sin(2π·frequency·(n + phase_shift)/rate)`.
#[derive(Clone, Copy, Debug)]
pub struct SineWave<S> {
    pub frequency: S,
    pub sample_rate: u32,
    pub current_sample: u32,
    pub phase_shift: S,
}

/// A square wave of the given frequency.
#[derive(Clone, Copy, Debug)]
pub struct SquareWave<S> {
    pub frequency: S,
    pub sample_rate: u32,
    pub current_sample: u32,
    pub phase_shift: S,
}

/// A triangle wave of the given frequency.
#[derive(Clone, Copy, Debug)]
pub struct TriangleWave<S> {
    pub frequency: S,
    pub sample_rate: u32,
    pub current_sample: u32,
    pub phase_shift: S,
}

/// A sawtooth wave of the given frequency.
#[derive(Clone, Copy, Debug)]
pub struct SawtoothWave<S> {
    pub frequency: S,
    pub sample_rate: u32,
    pub current_sample: u32,
    pub phase_shift: S,
}

/// A sine wave whose phase accumulator is pushed, on each sample, by one
/// sample of the modulator; it ends when the modulator ends.
#[derive(Debug)]
pub struct ModulatedSineWave<S> {
    pub frequency: S,
    pub sample_rate: u32,
    pub modulator: Box<Stream<S>>,
    pub current_sample: S,
}

/// `p·a + (1 − p)·b` of two streams; it ends as soon as either ends.
#[derive(Debug)]
pub struct Mix<S> {
    pub sample_rate: u32,
    pub stream_a: Box<Stream<S>>,
    pub stream_b: Box<Stream<S>>,
    pub p: S,
}

/// One value, forever.
#[derive(Clone, Copy, Debug)]
pub struct Const<S> {
    pub sample_rate: u32,
    pub val: S,
}

/// A source that ends at once: it produces no sample at all.
#[derive(Clone, Copy, Debug)]
pub struct Empty {
    pub sample_rate: u32,
}

/// Zero, forever.
#[derive(Clone, Copy, Debug)]
pub struct Silence {
    pub sample_rate: u32,
}

/// A stream shaped by an ADSR envelope; the envelope itself never ends, and
/// the stream under it is pulled on every sample.
#[derive(Debug)]
pub struct Envelope<S> {
    pub adsr: Adsr<S>,
    pub stream: Box<Stream<S>>,
    pub sample_rate: u32,
    pub current_sample: u32,
}

/// Coherent noise read at `n·scale/rate`.
#[derive(Clone, Copy, Debug)]
pub struct Perlin<S> {
    pub scale: S,
    pub sample_rate: u32,
    pub current_sample: u32,
}

/// Uniform random samples in `[-1, 1]`, forever.
#[derive(Clone, Copy, Debug)]
pub struct WhiteNoise {
    pub sample_rate: u32,
}

/// The sum of two streams; it ends as soon as either ends.
#[derive(Debug)]
pub struct Add<S> {
    pub sample_rate: u32,
    pub stream_a: Box<Stream<S>>,
    pub stream_b: Box<Stream<S>>,
}

/// The product of two streams; it ends as soon as either ends.
#[derive(Debug)]
pub struct Multiply<S> {
    pub sample_rate: u32,
    pub stream_a: Box<Stream<S>>,
    pub stream_b: Box<Stream<S>>,
}

impl<S: Sample> Stream<S> {
    /// Whether the stream is exhausted: every pull returns `None`. Only
    /// `Empty` is exhausted by itself; a combinator is exhausted when an
    /// operand whose end it passes on is.
    pub open spec fn ended(self) -> bool
        decreases self,
    {
        match self {
            Stream::Empty(_) => true,
            Stream::ModulatedSineWave(w) => w.modulator.ended(),
            Stream::Mix(m) => m.stream_a.ended() || m.stream_b.ended(),
            Stream::Envelope(e) => e.stream.ended(),
            Stream::Add(m) => m.stream_a.ended() || m.stream_b.ended(),
            Stream::Multiply(m) => m.stream_a.ended() || m.stream_b.ended(),
            _ => false,
        }
    }

    /// The number of generators and combinators in the tree.
    pub open spec fn size(self) -> nat
        decreases self,
    {
        match self {
            Stream::ModulatedSineWave(w) => 1 + w.modulator.size(),
            Stream::Mix(m) => 1 + m.stream_a.size() + m.stream_b.size(),
            Stream::Envelope(e) => 1 + e.stream.size(),
            Stream::Add(m) => 1 + m.stream_a.size() + m.stream_b.size(),
            Stream::Multiply(m) => 1 + m.stream_a.size() + m.stream_b.size(),
            _ => 1,
        }
    }

    /// One pull from `self` leaves `next`, where `t` lists, in preorder, what
    /// each part of the tree returned: `t[0]` is what `self` returned, then
    /// come the entries of its first operand, then those of its second (left
    /// free when that operand was not pulled). Each leaf generator returns
    /// the value of its operation at its current index and advances the
    /// index by one; a combinator pulls its first operand, its second one
    /// only if the first gave a sample, and combines what they gave; the
    /// parameters never change.
    pub open spec fn pulled_with(self, next: Stream<S>, t: Seq<Option<S>>) -> bool
        decreases self,
    {
        &&& t.len() == self.size()
        &&& match (self, next) {
            (Stream::SineWave(w), Stream::SineWave(v)) => {
                &&& v == SineWave { current_sample: next_index(w.current_sample), ..w }
                &&& t[0] == Some(S::spec_sine(w.current_sample, w.phase_shift, w.frequency, w.sample_rate))
            },
            (Stream::SquareWave(w), Stream::SquareWave(v)) => {
                &&& v == SquareWave { current_sample: next_index(w.current_sample), ..w }
                &&& t[0] == Some(S::spec_square(w.current_sample, w.phase_shift, w.frequency, w.sample_rate))
            },
            (Stream::TriangleWave(w), Stream::TriangleWave(v)) => {
                &&& v == TriangleWave { current_sample: next_index(w.current_sample), ..w }
                &&& t[0] == Some(S::spec_triangle(w.current_sample, w.phase_shift, w.frequency, w.sample_rate))
            },
            (Stream::SawtoothWave(w), Stream::SawtoothWave(v)) => {
                &&& v == SawtoothWave { current_sample: next_index(w.current_sample), ..w }
                &&& t[0] == Some(S::spec_sawtooth(w.current_sample, w.phase_shift, w.frequency, w.sample_rate))
            },
            (Stream::ModulatedSineWave(w), Stream::ModulatedSineWave(v)) => {
                let ta = t.subrange(1, t.len() as int);
                &&& v.frequency == w.frequency
                &&& v.sample_rate == w.sample_rate
                &&& w.modulator.pulled_with(*v.modulator, ta)
                &&& match ta[0] {
                    None => t[0] is None && v.current_sample == w.current_sample,
                    Some(x) => {
                        &&& t[0] == Some(S::spec_sine_at(w.current_sample, w.frequency, w.sample_rate))
                        &&& v.current_sample == S::spec_advance_counter(w.current_sample, x, w.sample_rate)
                    },
                }
            },
            (Stream::Mix(m), Stream::Mix(k)) => {
                let ta = t.subrange(1, 1 + m.stream_a.size() as int);
                let tb = t.subrange(1 + m.stream_a.size() as int, t.len() as int);
                &&& k.p == m.p
                &&& k.sample_rate == m.sample_rate
                &&& m.stream_a.pulled_with(*k.stream_a, ta)
                &&& match ta[0] {
                    None => t[0] is None && k.stream_b == m.stream_b,
                    Some(x) => {
                        &&& m.stream_b.pulled_with(*k.stream_b, tb)
                        &&& t[0] == match tb[0] {
                            None => None,
                            Some(y) => Some(S::spec_mix(m.p, x, y)),
                        }
                    },
                }
            },
            (Stream::Const(c), Stream::Const(d)) => d == c && t[0] == Some(c.val),
            (Stream::Empty(c), Stream::Empty(d)) => d == c && t[0] is None,
            (Stream::Silence(c), Stream::Silence(d)) => d == c && t[0] == Some(S::spec_from_milli(0)),
            (Stream::Envelope(e), Stream::Envelope(f)) => {
                let ta = t.subrange(1, t.len() as int);
                &&& f.adsr == e.adsr
                &&& f.sample_rate == e.sample_rate
                &&& f.current_sample == next_index(e.current_sample)
                &&& e.stream.pulled_with(*f.stream, ta)
                &&& t[0] == match ta[0] {
                    None => None,
                    Some(x) => Some(S::spec_mul(x, S::spec_envelope_gain(e.adsr, e.current_sample, e.sample_rate))),
                }
            },
            (Stream::Perlin(w), Stream::Perlin(v)) => {
                &&& v == Perlin { current_sample: next_index(w.current_sample), ..w }
                &&& t[0] == Some(S::spec_perlin(w.current_sample, w.scale, w.sample_rate))
            },
            (Stream::WhiteNoise(c), Stream::WhiteNoise(d)) => d == c && t[0] is Some,
            (Stream::Add(m), Stream::Add(k)) => {
                let ta = t.subrange(1, 1 + m.stream_a.size() as int);
                let tb = t.subrange(1 + m.stream_a.size() as int, t.len() as int);
                &&& k.sample_rate == m.sample_rate
                &&& m.stream_a.pulled_with(*k.stream_a, ta)
                &&& match ta[0] {
                    None => t[0] is None && k.stream_b == m.stream_b,
                    Some(x) => {
                        &&& m.stream_b.pulled_with(*k.stream_b, tb)
                        &&& t[0] == match tb[0] {
                            None => None,
                            Some(y) => Some(S::spec_add(x, y)),
                        }
                    },
                }
            },
            (Stream::Multiply(m), Stream::Multiply(k)) => {
                let ta = t.subrange(1, 1 + m.stream_a.size() as int);
                let tb = t.subrange(1 + m.stream_a.size() as int, t.len() as int);
                &&& k.sample_rate == m.sample_rate
                &&& m.stream_a.pulled_with(*k.stream_a, ta)
                &&& match ta[0] {
                    None => t[0] is None && k.stream_b == m.stream_b,
                    Some(x) => {
                        &&& m.stream_b.pulled_with(*k.stream_b, tb)
                        &&& t[0] == match tb[0] {
                            None => None,
                            Some(y) => Some(S::spec_mul(x, y)),
                        }
                    },
                }
            },
            _ => false,
        }
    }

    /// One pull from `self` leaves `next` and returns `r`, for some values
    /// returned by the parts of the tree (see `pulled_with`).
    pub open spec fn pulled(self, next: Stream<S>, r: Option<S>) -> bool {
        exists|t: Seq<Option<S>>| #[trigger] self.pulled_with(next, t) && t[0] == r
    }

    /// The sample rate that the stream declares.
    pub open spec fn rate(self) -> u32 {
        match self {
            Stream::SineWave(s) => s.sample_rate,
            Stream::SquareWave(s) => s.sample_rate,
            Stream::TriangleWave(s) => s.sample_rate,
            Stream::SawtoothWave(s) => s.sample_rate,
            Stream::ModulatedSineWave(s) => s.sample_rate,
            Stream::Mix(s) => s.sample_rate,
            Stream::Const(s) => s.sample_rate,
            Stream::Empty(s) => s.sample_rate,
            Stream::Silence(s) => s.sample_rate,
            Stream::Envelope(s) => s.sample_rate,
            Stream::Perlin(s) => s.sample_rate,
            Stream::WhiteNoise(s) => s.sample_rate,
            Stream::Add(s) => s.sample_rate,
            Stream::Multiply(s) => s.sample_rate,
        }
    }
}

impl<S: Sample> SineWave<S> {
    /// Frequency and phase shift zero, at the library's sample rate.
    pub fn new() -> (r: SineWave<S>)
        ensures
            r.sample_rate == SAMPLE_RATE,
            r.current_sample == 0,
            r.frequency == S::spec_from_milli(0),
            r.phase_shift == S::spec_from_milli(0),
    {
        SineWave {
            frequency: S::from_milli(0),
            sample_rate: SAMPLE_RATE,
            current_sample: 0,
            phase_shift: S::from_milli(0),
        }
    }

    pub fn set_frequency(&mut self, freq: S)
        ensures
            *final(self) == (SineWave { frequency: freq, ..*old(self) }),
    {
        self.frequency = freq;
    }

    pub fn set_phase_shift(&mut self, shift: S)
        ensures
            *final(self) == (SineWave { phase_shift: shift, ..*old(self) }),
    {
        self.phase_shift = shift;
    }

    /// The sample at the current index; the index then advances by one.
    pub fn next(&mut self) -> (r: Option<S>)
        ensures
            r is Some,
            Stream::SineWave(*old(self)).pulled(Stream::SineWave(*final(self)), r),
    {
        let sample = S::sine(self.current_sample, self.phase_shift, self.frequency, self.sample_rate);
        self.current_sample = bump(self.current_sample);
        assert(Stream::SineWave(*old(self)).pulled_with(Stream::SineWave(*self), seq![Some(sample)]));
        Some(sample)
    }
}

impl<S: Sample> SquareWave<S> {
    /// Frequency and phase shift zero, at the library's sample rate.
    pub fn new() -> (r: SquareWave<S>)
        ensures
            r.sample_rate == SAMPLE_RATE,
            r.current_sample == 0,
            r.frequency == S::spec_from_milli(0),
            r.phase_shift == S::spec_from_milli(0),
    {
        SquareWave {
            frequency: S::from_milli(0),
            sample_rate: SAMPLE_RATE,
            current_sample: 0,
            phase_shift: S::from_milli(0),
        }
    }

    pub fn set_frequency(&mut self, freq: S)
        ensures
            *final(self) == (SquareWave { frequency: freq, ..*old(self) }),
    {
        self.frequency = freq;
    }

    pub fn set_phase_shift(&mut self, shift: S)
        ensures
            *final(self) == (SquareWave { phase_shift: shift, ..*old(self) }),
    {
        self.phase_shift = shift;
    }

    /// The sample at the current index; the index then advances by one.
    pub fn next(&mut self) -> (r: Option<S>)
        ensures
            r is Some,
            Stream::SquareWave(*old(self)).pulled(Stream::SquareWave(*final(self)), r),
    {
        let sample = S::square(self.current_sample, self.phase_shift, self.frequency, self.sample_rate);
        self.current_sample = bump(self.current_sample);
        assert(Stream::SquareWave(*old(self)).pulled_with(Stream::SquareWave(*self), seq![Some(sample)]));
        Some(sample)
    }
}

impl<S: Sample> TriangleWave<S> {
    /// Frequency and phase shift zero, at the library's sample rate.
    pub fn new() -> (r: TriangleWave<S>)
        ensures
            r.sample_rate == SAMPLE_RATE,
            r.current_sample == 0,
            r.frequency == S::spec_from_milli(0),
            r.phase_shift == S::spec_from_milli(0),
    {
        TriangleWave {
            frequency: S::from_milli(0),
            sample_rate: SAMPLE_RATE,
            current_sample: 0,
            phase_shift: S::from_milli(0),
        }
    }

    pub fn set_frequency(&mut self, freq: S)
        ensures
            *final(self) == (TriangleWave { frequency: freq, ..*old(self) }),
    {
        self.frequency = freq;
    }

    pub fn set_phase_shift(&mut self, shift: S)
        ensures
            *final(self) == (TriangleWave { phase_shift: shift, ..*old(self) }),
    {
        self.phase_shift = shift;
    }

    /// The sample at the current index; the index then advances by one.
    pub fn next(&mut self) -> (r: Option<S>)
        ensures
            r is Some,
            Stream::TriangleWave(*old(self)).pulled(Stream::TriangleWave(*final(self)), r),
    {
        let sample = S::triangle(self.current_sample, self.phase_shift, self.frequency, self.sample_rate);
        self.current_sample = bump(self.current_sample);
        assert(Stream::TriangleWave(*old(self)).pulled_with(Stream::TriangleWave(*self), seq![Some(sample)]));
        Some(sample)
    }
}

impl<S: Sample> SawtoothWave<S> {
    /// Frequency and phase shift zero, at the library's sample rate.
    pub fn new() -> (r: SawtoothWave<S>)
        ensures
            r.sample_rate == SAMPLE_RATE,
            r.current_sample == 0,
            r.frequency == S::spec_from_milli(0),
            r.phase_shift == S::spec_from_milli(0),
    {
        SawtoothWave {
            frequency: S::from_milli(0),
            sample_rate: SAMPLE_RATE,
            current_sample: 0,
            phase_shift: S::from_milli(0),
        }
    }

    pub fn set_frequency(&mut self, freq: S)
        ensures
            *final(self) == (SawtoothWave { frequency: freq, ..*old(self) }),
    {
        self.frequency = freq;
    }

    pub fn set_phase_shift(&mut self, shift: S)
        ensures
            *final(self) == (SawtoothWave { phase_shift: shift, ..*old(self) }),
    {
        self.phase_shift = shift;
    }

    /// The sample at the current index; the index then advances by one.
    pub fn next(&mut self) -> (r: Option<S>)
        ensures
            r is Some,
            Stream::SawtoothWave(*old(self)).pulled(Stream::SawtoothWave(*final(self)), r),
    {
        let sample = S::sawtooth(self.current_sample, self.phase_shift, self.frequency, self.sample_rate);
        self.current_sample = bump(self.current_sample);
        assert(Stream::SawtoothWave(*old(self)).pulled_with(Stream::SawtoothWave(*self), seq![Some(sample)]));
        Some(sample)
    }
}

impl<S: Sample> ModulatedSineWave<S> {
    /// Frequency zero, with an `Empty` modulator.
    pub fn new() -> (r: ModulatedSineWave<S>)
        ensures
            r.sample_rate == SAMPLE_RATE,
            r.frequency == S::spec_from_milli(0),
            r.current_sample == S::spec_from_milli(0),
            *r.modulator == Stream::<S>::Empty(Empty { sample_rate: SAMPLE_RATE }),
    {
        ModulatedSineWave {
            frequency: S::from_milli(0),
            sample_rate: SAMPLE_RATE,
            modulator: Box::new(Stream::Empty(Empty::new())),
            current_sample: S::from_milli(0),
        }
    }

    pub fn set_modulator(&mut self, modulator: Stream<S>)
        ensures
            *final(self) == (ModulatedSineWave { modulator: Box::new(modulator), ..*old(self) }),
    {
        self.modulator = Box::new(modulator);
    }

    pub fn set_frequency(&mut self, freq: S)
        ensures
            *final(self) == (ModulatedSineWave { frequency: freq, ..*old(self) }),
    {
        self.frequency = freq;
    }

    /// Pulls the modulator once; if it gave a sample, returns the sine at
    /// the current counter and moves the counter on by one plus that sample.
    pub fn next(&mut self) -> (r: Option<S>)
        ensures
            r is None <==> old(self).modulator.ended(),
            final(self).modulator.ended() == old(self).modulator.ended(),
            Stream::ModulatedSineWave(*old(self)).pulled(Stream::ModulatedSineWave(*final(self)), r),
        decreases *old(self),
    {
        let ghost a0 = *self.modulator;
        let ra = self.modulator.next();
        let ghost ta = choose|t: Seq<Option<S>>| a0.pulled_with(*self.modulator, t) && t[0] == ra;
        let r = match ra {
            Some(a) => {
                let sample = S::sine_at(self.current_sample, self.frequency, self.sample_rate);
                self.current_sample = S::advance_counter(self.current_sample, a, self.sample_rate);
                Some(sample)
            },
            None => None,
        };
        proof {
            let t = seq![r] + ta;
            assert(t.subrange(1, t.len() as int) =~= ta);
            assert(Stream::ModulatedSineWave(*old(self)).pulled_with(Stream::ModulatedSineWave(*self), t));
        }
        r
    }
}

impl<S: Sample> Mix<S> {
    /// Two `Empty` operands and `p` one half.
    pub fn new() -> (r: Mix<S>)
        ensures
            r.sample_rate == SAMPLE_RATE,
            r.p == S::spec_from_milli(500),
            *r.stream_a == Stream::<S>::Empty(Empty { sample_rate: SAMPLE_RATE }),
            *r.stream_b == Stream::<S>::Empty(Empty { sample_rate: SAMPLE_RATE }),
    {
        Mix {
            sample_rate: SAMPLE_RATE,
            stream_a: Box::new(Stream::Empty(Empty::new())),
            stream_b: Box::new(Stream::Empty(Empty::new())),
            p: S::from_milli(500),
        }
    }

    pub fn set_stream_a(&mut self, stream: Stream<S>)
        ensures
            *final(self) == (Mix { stream_a: Box::new(stream), ..*old(self) }),
    {
        self.stream_a = Box::new(stream);
    }

    pub fn set_stream_b(&mut self, stream: Stream<S>)
        ensures
            *final(self) == (Mix { stream_b: Box::new(stream), ..*old(self) }),
    {
        self.stream_b = Box::new(stream);
    }

    pub fn set_p(&mut self, p: S)
        ensures
            *final(self) == (Mix { p: p, ..*old(self) }),
    {
        self.p = p;
    }

    pub fn next(&mut self) -> (r: Option<S>)
        ensures
            r is None <==> Stream::Mix(*old(self)).ended(),
            Stream::Mix(*final(self)).ended() == Stream::Mix(*old(self)).ended(),
            Stream::Mix(*old(self)).pulled(Stream::Mix(*final(self)), r),
        decreases *old(self),
    {
        let ghost a0 = *self.stream_a;
        let ghost b0 = *self.stream_b;
        let ra = self.stream_a.next();
        let ghost ta = choose|t: Seq<Option<S>>| a0.pulled_with(*self.stream_a, t) && t[0] == ra;
        let ghost mut tb: Seq<Option<S>> = Seq::new(b0.size(), |i: int| None::<S>);
        let r = match ra {
            Some(a) => {
                let rb = self.stream_b.next();
                proof {
                    tb = choose|t: Seq<Option<S>>| b0.pulled_with(*self.stream_b, t) && t[0] == rb;
                }
                match rb {
                    Some(b) => Some(S::mix(self.p, a, b)),
                    None => None,
                }
            },
            None => None,
        };
        proof {
            let t = seq![r] + ta + tb;
            assert(t.subrange(1, 1 + a0.size() as int) =~= ta);
            assert(t.subrange(1 + a0.size() as int, t.len() as int) =~= tb);
            assert(Stream::Mix(*old(self)).pulled_with(Stream::Mix(*self), t));
        }
        r
    }
}

impl<S: Sample> Const<S> {
    /// The value zero.
    pub fn new() -> (r: Const<S>)
        ensures
            r.sample_rate == SAMPLE_RATE,
            r.val == S::spec_from_milli(0),
    {
        Const { sample_rate: SAMPLE_RATE, val: S::from_milli(0) }
    }

    pub fn set_val(&mut self, val: S)
        ensures
            *final(self) == (Const { val: val, ..*old(self) }),
    {
        self.val = val;
    }

    pub fn next(&mut self) -> (r: Option<S>)
        ensures
            r == Some(old(self).val),
            *final(self) == *old(self),
            Stream::Const(*old(self)).pulled(Stream::Const(*final(self)), r),
    {
        let r = Some(self.val);
        assert(Stream::Const(*old(self)).pulled_with(Stream::Const(*self), seq![r]));
        r
    }
}

impl Empty {
    pub fn new() -> (r: Empty)
        ensures
            r.sample_rate == SAMPLE_RATE,
    {
        Empty { sample_rate: SAMPLE_RATE }
    }

    pub fn next<S: Sample>(&mut self) -> (r: Option<S>)
        ensures
            r is None,
            *final(self) == *old(self),
            Stream::<S>::Empty(*old(self)).pulled(Stream::Empty(*final(self)), r),
    {
        let r = None;
        assert(Stream::<S>::Empty(*old(self)).pulled_with(Stream::Empty(*self), seq![r]));
        r
    }
}

impl Silence {
    pub fn new() -> (r: Silence)
        ensures
            r.sample_rate == SAMPLE_RATE,
    {
        Silence { sample_rate: SAMPLE_RATE }
    }

    /// Zero.
    pub fn next<S: Sample>(&mut self) -> (r: Option<S>)
        ensures
            r == Some(S::spec_from_milli(0)),
            *final(self) == *old(self),
            Stream::<S>::Silence(*old(self)).pulled(Stream::Silence(*final(self)), r),
    {
        let r = Some(S::from_milli(0));
        assert(Stream::<S>::Silence(*old(self)).pulled_with(Stream::Silence(*self), seq![r]));
        r
    }
}

impl<S: Sample> Envelope<S> {
    /// Peak 1, attack 0.3 s, decay 0.3 s, sustain level 0.6 for 2 s,
    /// release 1 s, over an `Empty` stream.
    pub fn new() -> (r: Envelope<S>)
        ensures
            r.sample_rate == SAMPLE_RATE,
            r.adsr == (Adsr {
                a: S::spec_from_milli(1000),
                ad: S::spec_from_milli(300),
                dd: S::spec_from_milli(300),
                s: S::spec_from_milli(600),
                sd: S::spec_from_milli(2000),
                rd: S::spec_from_milli(1000),
            }),
            r.current_sample == 0,
            *r.stream == Stream::<S>::Empty(Empty { sample_rate: SAMPLE_RATE }),
    {
        Envelope {
            adsr: Adsr {
                a: S::from_milli(1000),
                ad: S::from_milli(300),
                dd: S::from_milli(300),
                s: S::from_milli(600),
                sd: S::from_milli(2000),
                rd: S::from_milli(1000),
            },
            stream: Box::new(Stream::Empty(Empty::new())),
            sample_rate: SAMPLE_RATE,
            current_sample: 0,
        }
    }

    pub fn set_stream(&mut self, stream: Stream<S>)
        ensures
            *final(self) == (Envelope { stream: Box::new(stream), ..*old(self) }),
    {
        self.stream = Box::new(stream);
    }

    pub fn set_a(&mut self, v: S)
        ensures
            *final(self) == (Envelope { adsr: Adsr { a: v, ..old(self).adsr }, ..*old(self) }),
    {
        self.adsr.a = v;
    }

    pub fn set_ad(&mut self, v: S)
        ensures
            *final(self) == (Envelope { adsr: Adsr { ad: v, ..old(self).adsr }, ..*old(self) }),
    {
        self.adsr.ad = v;
    }

    pub fn set_dd(&mut self, v: S)
        ensures
            *final(self) == (Envelope { adsr: Adsr { dd: v, ..old(self).adsr }, ..*old(self) }),
    {
        self.adsr.dd = v;
    }

    pub fn set_s(&mut self, v: S)
        ensures
            *final(self) == (Envelope { adsr: Adsr { s: v, ..old(self).adsr }, ..*old(self) }),
    {
        self.adsr.s = v;
    }

    pub fn set_sd(&mut self, v: S)
        ensures
            *final(self) == (Envelope { adsr: Adsr { sd: v, ..old(self).adsr }, ..*old(self) }),
    {
        self.adsr.sd = v;
    }

    pub fn set_rd(&mut self, v: S)
        ensures
            *final(self) == (Envelope { adsr: Adsr { rd: v, ..old(self).adsr }, ..*old(self) }),
    {
        self.adsr.rd = v;
    }

    /// The gain at the current time times one sample of the stream; the
    /// time advances whether or not the stream gave a sample.
    pub fn next(&mut self) -> (r: Option<S>)
        ensures
            r is None <==> old(self).stream.ended(),
            final(self).stream.ended() == old(self).stream.ended(),
            Stream::Envelope(*old(self)).pulled(Stream::Envelope(*final(self)), r),
        decreases *old(self),
    {
        let n = self.current_sample;
        self.current_sample = bump(self.current_sample);
        let ghost a0 = *self.stream;
        let ra = self.stream.next();
        let ghost ta = choose|t: Seq<Option<S>>| a0.pulled_with(*self.stream, t) && t[0] == ra;
        let r = match ra {
            Some(sample) => Some(S::mul(sample, S::envelope_gain(self.adsr, n, self.sample_rate))),
            None => None,
        };
        proof {
            let t = seq![r] + ta;
            assert(t.subrange(1, t.len() as int) =~= ta);
            assert(Stream::Envelope(*old(self)).pulled_with(Stream::Envelope(*self), t));
        }
        r
    }
}

impl<S: Sample> Perlin<S> {
    /// Scale one.
    pub fn new() -> (r: Perlin<S>)
        ensures
            r.sample_rate == SAMPLE_RATE,
            r.scale == S::spec_from_milli(1000),
            r.current_sample == 0,
    {
        Perlin { scale: S::from_milli(1000), sample_rate: SAMPLE_RATE, current_sample: 0 }
    }

    pub fn set_scale(&mut self, v: S)
        ensures
            *final(self) == (Perlin { scale: v, ..*old(self) }),
    {
        self.scale = v;
    }

    pub fn next(&mut self) -> (r: Option<S>)
        ensures
            r is Some,
            Stream::Perlin(*old(self)).pulled(Stream::Perlin(*final(self)), r),
    {
        let sample = S::perlin(self.current_sample, self.scale, self.sample_rate);
        self.current_sample = bump(self.current_sample);
        assert(Stream::Perlin(*old(self)).pulled_with(Stream::Perlin(*self), seq![Some(sample)]));
        Some(sample)
    }
}

impl WhiteNoise {
    pub fn new() -> (r: WhiteNoise)
        ensures
            r.sample_rate == SAMPLE_RATE,
    {
        WhiteNoise { sample_rate: SAMPLE_RATE }
    }

    pub fn next<S: Sample>(&mut self) -> (r: Option<S>)
        ensures
            r is Some,
            *final(self) == *old(self),
            Stream::<S>::WhiteNoise(*old(self)).pulled(Stream::WhiteNoise(*final(self)), r),
    {
        let r = Some(S::white_noise());
        assert(Stream::<S>::WhiteNoise(*old(self)).pulled_with(Stream::WhiteNoise(*self), seq![r]));
        r
    }
}

impl<S: Sample> Add<S> {
    /// Two `Empty` operands.
    pub fn new() -> (r: Add<S>)
        ensures
            r.sample_rate == SAMPLE_RATE,
            *r.stream_a == Stream::<S>::Empty(Empty { sample_rate: SAMPLE_RATE }),
            *r.stream_b == Stream::<S>::Empty(Empty { sample_rate: SAMPLE_RATE }),
    {
        Add {
            sample_rate: SAMPLE_RATE,
            stream_a: Box::new(Stream::Empty(Empty::new())),
            stream_b: Box::new(Stream::Empty(Empty::new())),
        }
    }

    pub fn set_stream_a(&mut self, stream: Stream<S>)
        ensures
            *final(self) == (Add { stream_a: Box::new(stream), ..*old(self) }),
    {
        self.stream_a = Box::new(stream);
    }

    pub fn set_stream_b(&mut self, stream: Stream<S>)
        ensures
            *final(self) == (Add { stream_b: Box::new(stream), ..*old(self) }),
    {
        self.stream_b = Box::new(stream);
    }

    pub fn next(&mut self) -> (r: Option<S>)
        ensures
            r is None <==> Stream::Add(*old(self)).ended(),
            Stream::Add(*final(self)).ended() == Stream::Add(*old(self)).ended(),
            Stream::Add(*old(self)).pulled(Stream::Add(*final(self)), r),
        decreases *old(self),
    {
        let ghost a0 = *self.stream_a;
        let ghost b0 = *self.stream_b;
        let ra = self.stream_a.next();
        let ghost ta = choose|t: Seq<Option<S>>| a0.pulled_with(*self.stream_a, t) && t[0] == ra;
        let ghost mut tb: Seq<Option<S>> = Seq::new(b0.size(), |i: int| None::<S>);
        let r = match ra {
            Some(a) => {
                let rb = self.stream_b.next();
                proof {
                    tb = choose|t: Seq<Option<S>>| b0.pulled_with(*self.stream_b, t) && t[0] == rb;
                }
                match rb {
                    Some(b) => Some(S::add(a, b)),
                    None => None,
                }
            },
            None => None,
        };
        proof {
            let t = seq![r] + ta + tb;
            assert(t.subrange(1, 1 + a0.size() as int) =~= ta);
            assert(t.subrange(1 + a0.size() as int, t.len() as int) =~= tb);
            assert(Stream::Add(*old(self)).pulled_with(Stream::Add(*self), t));
        }
        r
    }
}

impl<S: Sample> Multiply<S> {
    /// Two `Empty` operands.
    pub fn new() -> (r: Multiply<S>)
        ensures
            r.sample_rate == SAMPLE_RATE,
            *r.stream_a == Stream::<S>::Empty(Empty { sample_rate: SAMPLE_RATE }),
            *r.stream_b == Stream::<S>::Empty(Empty { sample_rate: SAMPLE_RATE }),
    {
        Multiply {
            sample_rate: SAMPLE_RATE,
            stream_a: Box::new(Stream::Empty(Empty::new())),
            stream_b: Box::new(Stream::Empty(Empty::new())),
        }
    }

    pub fn set_stream_a(&mut self, stream: Stream<S>)
        ensures
            *final(self) == (Multiply { stream_a: Box::new(stream), ..*old(self) }),
    {
        self.stream_a = Box::new(stream);
    }

    pub fn set_stream_b(&mut self, stream: Stream<S>)
        ensures
            *final(self) == (Multiply { stream_b: Box::new(stream), ..*old(self) }),
    {
        self.stream_b = Box::new(stream);
    }

    pub fn next(&mut self) -> (r: Option<S>)
        ensures
            r is None <==> Stream::Multiply(*old(self)).ended(),
            Stream::Multiply(*final(self)).ended() == Stream::Multiply(*old(self)).ended(),
            Stream::Multiply(*old(self)).pulled(Stream::Multiply(*final(self)), r),
        decreases *old(self),
    {
        let ghost a0 = *self.stream_a;
        let ghost b0 = *self.stream_b;
        let ra = self.stream_a.next();
        let ghost ta = choose|t: Seq<Option<S>>| a0.pulled_with(*self.stream_a, t) && t[0] == ra;
        let ghost mut tb: Seq<Option<S>> = Seq::new(b0.size(), |i: int| None::<S>);
        let r = match ra {
            Some(a) => {
                let rb = self.stream_b.next();
                proof {
                    tb = choose|t: Seq<Option<S>>| b0.pulled_with(*self.stream_b, t) && t[0] == rb;
                }
                match rb {
                    Some(b) => Some(S::mul(a, b)),
                    None => None,
                }
            },
            None => None,
        };
        proof {
            let t = seq![r] + ta + tb;
            assert(t.subrange(1, 1 + a0.size() as int) =~= ta);
            assert(t.subrange(1 + a0.size() as int, t.len() as int) =~= tb);
            assert(Stream::Multiply(*old(self)).pulled_with(Stream::Multiply(*self), t));
        }
        r
    }
}

impl<S: Sample> Stream<S> {
    /// Pulls one sample: `None` exactly when the stream is exhausted, which
    /// it then stays.
    pub fn next(&mut self) -> (r: Option<S>)
        ensures
            r is None <==> old(self).ended(),
            final(self).ended() == old(self).ended(),
            old(self).pulled(*final(self), r),
        decreases *old(self),
    {
        match self {
            Stream::SineWave(s) => s.next(),
            Stream::SquareWave(s) => s.next(),
            Stream::TriangleWave(s) => s.next(),
            Stream::SawtoothWave(s) => s.next(),
            Stream::ModulatedSineWave(s) => s.next(),
            Stream::Mix(s) => s.next(),
            Stream::Const(s) => s.next(),
            Stream::Empty(s) => s.next(),
            Stream::Silence(s) => s.next(),
            Stream::Envelope(s) => s.next(),
            Stream::Perlin(s) => s.next(),
            Stream::WhiteNoise(s) => s.next(),
            Stream::Add(s) => s.next(),
            Stream::Multiply(s) => s.next(),
        }
    }

    pub fn sample_rate(&self) -> (r: u32)
        ensures
            r == self.rate(),
    {
        match self {
            Stream::SineWave(s) => s.sample_rate,
            Stream::SquareWave(s) => s.sample_rate,
            Stream::TriangleWave(s) => s.sample_rate,
            Stream::SawtoothWave(s) => s.sample_rate,
            Stream::ModulatedSineWave(s) => s.sample_rate,
            Stream::Mix(s) => s.sample_rate,
            Stream::Const(s) => s.sample_rate,
            Stream::Empty(s) => s.sample_rate,
            Stream::Silence(s) => s.sample_rate,
            Stream::Envelope(s) => s.sample_rate,
            Stream::Perlin(s) => s.sample_rate,
            Stream::WhiteNoise(s) => s.sample_rate,
            Stream::Add(s) => s.sample_rate,
            Stream::Multiply(s) => s.sample_rate,
        }
    }

    /// A copy of the whole tree, in its current state.
    pub fn duplicate(&self) -> (r: Stream<S>)
        ensures
            r == *self,
        decreases self,
    {
        match self {
            Stream::SineWave(s) => Stream::SineWave(*s),
            Stream::SquareWave(s) => Stream::SquareWave(*s),
            Stream::TriangleWave(s) => Stream::TriangleWave(*s),
            Stream::SawtoothWave(s) => Stream::SawtoothWave(*s),
            Stream::ModulatedSineWave(s) => Stream::ModulatedSineWave(ModulatedSineWave {
                frequency: s.frequency,
                sample_rate: s.sample_rate,
                modulator: Box::new(s.modulator.duplicate()),
                current_sample: s.current_sample,
            }),
            Stream::Mix(s) => Stream::Mix(Mix {
                sample_rate: s.sample_rate,
                stream_a: Box::new(s.stream_a.duplicate()),
                stream_b: Box::new(s.stream_b.duplicate()),
                p: s.p,
            }),
            Stream::Const(s) => Stream::Const(*s),
            Stream::Empty(s) => Stream::Empty(*s),
            Stream::Silence(s) => Stream::Silence(*s),
            Stream::Envelope(s) => Stream::Envelope(Envelope {
                adsr: s.adsr,
                stream: Box::new(s.stream.duplicate()),
                sample_rate: s.sample_rate,
                current_sample: s.current_sample,
            }),
            Stream::Perlin(s) => Stream::Perlin(*s),
            Stream::WhiteNoise(s) => Stream::WhiteNoise(*s),
            Stream::Add(s) => Stream::Add(Add {
                sample_rate: s.sample_rate,
                stream_a: Box::new(s.stream_a.duplicate()),
                stream_b: Box::new(s.stream_b.duplicate()),
            }),
            Stream::Multiply(s) => Stream::Multiply(Multiply {
                sample_rate: s.sample_rate,
                stream_a: Box::new(s.stream_a.duplicate()),
                stream_b: Box::new(s.stream_b.duplicate()),
            }),
        }
    }
}

impl<S: Sample> Clone for Stream<S> {
    fn clone(&self) -> (r: Stream<S>)
        ensures
            r == *self,
    {
        self.duplicate()
    }
}

impl<S: Sample> Default for Stream<S> {
    /// The `Empty` stream.
    fn default() -> (r: Stream<S>)
        ensures
            r == Stream::<S>::Empty(Empty { sample_rate: SAMPLE_RATE }),
    {
        Stream::Empty(Empty::new())
    }
}

/// A mix gives a sample exactly when both of its operands do: it ends as
/// soon as the shorter operand ends.
pub proof fn lemma_mix_ends<S: Sample>(m: Mix<S>)
    ensures
        Stream::Mix(m).ended() <==> (m.stream_a.ended() || m.stream_b.ended()),
{
}

/// `Empty` ends on the first pull and stays as it is; `Silence` never ends,
/// never changes, and gives zero on every pull.
pub proof fn lemma_empty_and_silence<S: Sample>(e: Empty, e2: Empty, z: Silence, z2: Silence, r: Option<S>, q: Option<S>)
    requires
        Stream::<S>::Empty(e).pulled(Stream::Empty(e2), q),
        Stream::<S>::Silence(z).pulled(Stream::Silence(z2), r),
    ensures
        Stream::<S>::Empty(e).ended(),
        q is None,
        e2 == e,
        !Stream::<S>::Silence(z).ended(),
        z2 == z,
        r == Some(S::spec_from_milli(0)),
{
}

} // verus!
