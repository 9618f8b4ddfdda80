//! Trusted boundary to the numeric crates.
//!
//! The engine is generic over its scalar sample type, so every arithmetic
//! step on samples goes through one of the small wrappers below; each wrapper
//! performs exactly one outside operation. Verified code composes them and
//! proves everything structural around them; the numeric results themselves
//! are not pinned by contracts.

use vstd::prelude::*;

verus! {

#[verifier::external_type_specification]
#[verifier::external_body]
#[verifier::reject_recursive_types(T)]
pub struct ExComplex<T>(num_complex::Complex<T>);

/// Relies on num_traits::Zero::zero for the scalar type.
#[verifier::external_body]
pub fn sample_zero<T: num_traits::Float>() -> T {
    T::zero()
}

/// Relies on num_traits::One::one for the scalar type.
#[verifier::external_body]
pub fn sample_one<T: num_traits::Float>() -> T {
    T::one()
}

/// Relies on num_traits::FloatConst::PI for the scalar type.
#[verifier::external_body]
pub fn sample_pi<T: num_traits::Float + num_traits::FloatConst>() -> T {
    T::PI()
}

/// Relies on num_traits::NumCast::from to express a small integer as a scalar.
#[verifier::external_body]
pub fn sample_from_usize<T: num_traits::Float>(n: usize) -> T {
    num_traits::NumCast::from(n).unwrap_or_else(T::zero)
}

/// Relies on the scalar type's addition operator.
#[verifier::external_body]
pub fn sample_add<T: num_traits::Float>(a: &T, b: &T) -> T {
    *a + *b
}

/// Relies on the scalar type's subtraction operator.
#[verifier::external_body]
pub fn sample_sub<T: num_traits::Float>(a: &T, b: &T) -> T {
    *a - *b
}

/// Relies on the scalar type's multiplication operator.
#[verifier::external_body]
pub fn sample_mul<T: num_traits::Float>(a: &T, b: &T) -> T {
    *a * *b
}

/// Relies on the scalar type's division operator; division never panics on a
/// float type.
#[verifier::external_body]
pub fn sample_div<T: num_traits::Float>(a: &T, b: &T) -> T {
    *a / *b
}

/// Relies on num_traits::Float::neg.
#[verifier::external_body]
pub fn sample_neg<T: num_traits::Float>(a: &T) -> T {
    -*a
}

/// Relies on num_traits::Float::min.
#[verifier::external_body]
pub fn sample_min<T: num_traits::Float>(a: &T, b: &T) -> T {
    a.min(*b)
}

/// Relies on num_traits::Float::max.
#[verifier::external_body]
pub fn sample_max<T: num_traits::Float>(a: &T, b: &T) -> T {
    a.max(*b)
}

/// Relies on num_traits::Float::sqrt.
#[verifier::external_body]
pub fn sample_sqrt<T: num_traits::Float>(a: &T) -> T {
    a.sqrt()
}

/// Relies on num_traits::Float::sin.
#[verifier::external_body]
pub fn sample_sin<T: num_traits::Float>(a: &T) -> T {
    a.sin()
}

/// Relies on num_traits::Float::cos.
#[verifier::external_body]
pub fn sample_cos<T: num_traits::Float>(a: &T) -> T {
    a.cos()
}

/// Relies on num_traits::Float::powf.
#[verifier::external_body]
pub fn sample_powf<T: num_traits::Float>(base: &T, exponent: &T) -> T {
    base.powf(*exponent)
}

/// Relies on num_traits::Float::to_degrees.
#[verifier::external_body]
pub fn sample_to_degrees<T: num_traits::Float>(a: &T) -> T {
    a.to_degrees()
}

/// Relies on num_traits::Zero::is_zero.
#[verifier::external_body]
pub fn sample_is_zero<T: num_traits::Float>(a: &T) -> bool {
    a.is_zero()
}

/// Relies on num_traits::ToPrimitive::to_i64; a value that does not fit (or a
/// NaN) reads as zero, the forward-facing default for orientation input.
#[verifier::external_body]
pub fn sample_to_i64<T: num_traits::Float>(a: &T) -> i64 {
    num_traits::ToPrimitive::to_i64(a).unwrap_or(0)
}

/// Relies on num_complex::Complex::new and num_traits::Zero::zero.
#[verifier::external_body]
pub fn complex_zero<T: num_traits::Float>() -> num_complex::Complex<T> {
    num_complex::Complex::new(T::zero(), T::zero())
}

/// Relies on num_complex's addition and multiplication of complex values:
/// returns `acc + s * h`, one multiply-accumulate step of a spectrum product.
#[verifier::external_body]
pub fn complex_mul_add<T: num_traits::Float>(
    acc: &num_complex::Complex<T>,
    s: &num_complex::Complex<T>,
    h: &num_complex::Complex<T>,
) -> num_complex::Complex<T> {
    *acc + *s * *h
}

/// Relies on num_complex's scalar division: divides one spectrum bin by a
/// positive integer, the transform normalization step.
#[verifier::external_body]
pub fn complex_div_usize<T: num_traits::Float>(
    c: &num_complex::Complex<T>,
    n: usize,
) -> num_complex::Complex<T>
    requires
        n >= 1,
{
    match num_traits::NumCast::from(n) {
        Some(d) => num_complex::Complex::new(c.re / d, c.im / d),
        None => *c,
    }
}

/// Relies on realfft's RealToComplex::process: the forward transform of a real
/// block of length `n` yields `n / 2 + 1` spectrum bins.
#[verifier::external_body]
pub fn fft_forward<T: num_traits::Float + realfft::FftNum>(
    input: &Vec<T>,
) -> (spectrum: Vec<num_complex::Complex<T>>)
    requires
        input@.len() >= 2,
    ensures
        spectrum@.len() == input@.len() / 2 + 1,
{
    let mut planner = realfft::RealFftPlanner::<T>::new();
    let fft = planner.plan_fft_forward(input.len());
    let mut buf = input.clone();
    let mut spectrum = fft.make_output_vec();
    let _ = fft.process(&mut buf, &mut spectrum);
    spectrum
}

/// Relies on realfft's ComplexToReal::process: the inverse transform of
/// `out_len / 2 + 1` spectrum bins yields a real block of length `out_len`.
/// The spectrum argument is consumed as scratch space.
#[verifier::external_body]
pub fn fft_inverse<T: num_traits::Float + realfft::FftNum>(
    spectrum: Vec<num_complex::Complex<T>>,
    out_len: usize,
) -> (output: Vec<T>)
    requires
        out_len >= 2,
        spectrum@.len() == out_len / 2 + 1,
    ensures
        output@.len() == out_len,
{
    let mut planner = realfft::RealFftPlanner::<T>::new();
    let fft = planner.plan_fft_inverse(out_len);
    let mut buf = spectrum;
    let mut output = fft.make_output_vec();
    let _ = fft.process(&mut buf, &mut output);
    output
}

/// Relies on hound::WavReader: decodes a WAV byte blob into its interleaved
/// samples; an unreadable blob or unreadable tail samples decode to defaults.
#[verifier::external_body]
pub fn wav_to_pcm<T: hound::Sample + Default>(wav_data: &[u8]) -> Vec<T> {
    match hound::WavReader::new(std::io::Cursor::new(wav_data)) {
        Ok(mut reader) => reader.samples::<T>().map(|s| s.unwrap_or_default()).collect(),
        Err(_) => Vec::new(),
    }
}

} // verus!
