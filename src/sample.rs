use vstd::prelude::*;

verus! {

/// The arithmetic of one sample type.
///
/// The generators and combinators decide when to pull, what to pull and when
/// to stop, and which operation gives each sample; the operations compute
/// the values. Each deterministic operation `x` has a spec function
/// `spec_x`, the value that it returns: the same arguments give the same
/// value. `n` is a sample index and `rate` a sample rate in hertz.
pub trait Sample: Copy + Sized {
    /// The value `m / 1000`.
    spec fn spec_from_milli(m: i32) -> Self;

    fn from_milli(m: i32) -> (r: Self)
        ensures
            r == Self::spec_from_milli(m),
    ;

    /// `sin(2π·freq·(n + phase)/rate)`.
    spec fn spec_sine(n: u32, phase: Self, freq: Self, rate: u32) -> Self;

    fn sine(n: u32, phase: Self, freq: Self, rate: u32) -> (r: Self)
        ensures
            r == Self::spec_sine(n, phase, freq, rate),
    ;

    /// With `x = (n + phase)·freq/rate`: `1` if `x mod 1 ≤ 0.5`, else `-1`.
    spec fn spec_square(n: u32, phase: Self, freq: Self, rate: u32) -> Self;

    fn square(n: u32, phase: Self, freq: Self, rate: u32) -> (r: Self)
        ensures
            r == Self::spec_square(n, phase, freq, rate),
    ;

    /// With `x` as for `square`: `4·|x + 0.25 − floor(x + 0.75)| − 1`.
    spec fn spec_triangle(n: u32, phase: Self, freq: Self, rate: u32) -> Self;

    fn triangle(n: u32, phase: Self, freq: Self, rate: u32) -> (r: Self)
        ensures
            r == Self::spec_triangle(n, phase, freq, rate),
    ;

    /// With `x` as for `square`: `x mod 1`.
    spec fn spec_sawtooth(n: u32, phase: Self, freq: Self, rate: u32) -> Self;

    fn sawtooth(n: u32, phase: Self, freq: Self, rate: u32) -> (r: Self)
        ensures
            r == Self::spec_sawtooth(n, phase, freq, rate),
    ;

    /// `sin(2π·freq·counter/rate)` for a fractional sample counter.
    spec fn spec_sine_at(counter: Self, freq: Self, rate: u32) -> Self;

    fn sine_at(counter: Self, freq: Self, rate: u32) -> (r: Self)
        ensures
            r == Self::spec_sine_at(counter, freq, rate),
    ;

    /// `(counter + 1 + modulation) mod rate`.
    spec fn spec_advance_counter(counter: Self, modulation: Self, rate: u32) -> Self;

    fn advance_counter(counter: Self, modulation: Self, rate: u32) -> (r: Self)
        ensures
            r == Self::spec_advance_counter(counter, modulation, rate),
    ;

    /// `p·a + (1 − p)·b`.
    spec fn spec_mix(p: Self, a: Self, b: Self) -> Self;

    fn mix(p: Self, a: Self, b: Self) -> (r: Self)
        ensures
            r == Self::spec_mix(p, a, b),
    ;

    /// `a + b`.
    spec fn spec_add(a: Self, b: Self) -> Self;

    fn add(a: Self, b: Self) -> (r: Self)
        ensures
            r == Self::spec_add(a, b),
    ;

    /// `a·b`.
    spec fn spec_mul(a: Self, b: Self) -> Self;

    fn mul(a: Self, b: Self) -> (r: Self)
        ensures
            r == Self::spec_mul(a, b),
    ;

    /// The gain of an ADSR envelope at time `t = n/rate`: a ramp from 0 to
    /// `a` over `ad`, from `a` to `s` over `dd`, `s` held for `sd`, a ramp
    /// from `s` to 0 over `rd`, and 0 after that.
    spec fn spec_envelope_gain(adsr: Adsr<Self>, n: u32, rate: u32) -> Self;

    fn envelope_gain(adsr: Adsr<Self>, n: u32, rate: u32) -> (r: Self)
        ensures
            r == Self::spec_envelope_gain(adsr, n, rate),
    ;

    /// One-dimensional coherent noise with a fixed seed at `n·scale/rate`,
    /// mapped into `[-1, 1]`.
    spec fn spec_perlin(n: u32, scale: Self, rate: u32) -> Self;

    fn perlin(n: u32, scale: Self, rate: u32) -> (r: Self)
        ensures
            r == Self::spec_perlin(n, scale, rate),
    ;

    /// A uniformly random value in `[-1, 1]`; nothing more is known of it.
    fn white_noise() -> Self;
}

/// The breakpoints of an attack-decay-sustain-release envelope: the peak
/// level `a`, the sustain level `s`, and the durations in seconds of the
/// attack `ad`, decay `dd`, sustain `sd` and release `rd`.
#[derive(Clone, Copy, Debug)]
pub struct Adsr<S> {
    pub a: S,
    pub ad: S,
    pub dd: S,
    pub s: S,
    pub sd: S,
    pub rd: S,
}

} // verus!
