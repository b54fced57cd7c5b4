use vstd::prelude::*;

verus! {

/// Why a numeric parameter could not be read.
#[derive(Clone, Copy, Debug, PartialEq, Eq, Structural)]
pub enum NumberError {
    /// The text is not an optional `+` followed by one or more decimal digits.
    NotANumber,
    /// The text is a decimal number larger than `u32::MAX`.
    OutOfRange,
}

/// Why a set of simulation parameters was refused.
#[derive(Clone, Copy, Debug, PartialEq, Eq, Structural)]
pub enum ParameterError {
    ZeroSamplingFreq,
    ZeroCarrierFreq,
    ZeroSymbolRate,
}

pub open spec fn is_digit(c: char) -> bool {
    '0' <= c && c <= '9'
}

pub open spec fn digit_value(c: char) -> int {
    (c as int) - ('0' as int)
}

/// The digits of a number: the text without one leading `+`, if it has one.
pub open spec fn digits_part(s: Seq<char>) -> Seq<char> {
    if s.len() > 0 && s[0] == '+' {
        s.drop_first()
    } else {
        s
    }
}

/// The text is written as an unsigned decimal number.
pub open spec fn is_decimal(s: Seq<char>) -> bool {
    let d = digits_part(s);
    d.len() > 0 && forall|i: int| 0 <= i < d.len() ==> is_digit(#[trigger] d[i])
}

/// The value of a string of decimal digits.
pub open spec fn decimal_value(d: Seq<char>) -> int
    decreases d.len(),
{
    if d.len() == 0 {
        0
    } else {
        10 * decimal_value(d.drop_last()) + digit_value(d.last())
    }
}

/// Reads a non-negative integer such as `"8"` or `"+12"`; the caller removes
/// surrounding whitespace first.
pub fn parse_number(text: &str) -> (r: Result<u32, NumberError>)
    ensures
        !is_decimal(text@) <==> r == Err::<u32, NumberError>(NumberError::NotANumber),
        is_decimal(text@) && decimal_value(digits_part(text@)) > u32::MAX
            <==> r == Err::<u32, NumberError>(NumberError::OutOfRange),
        r is Ok <==> is_decimal(text@) && decimal_value(digits_part(text@)) <= u32::MAX,
        r matches Ok(n) ==> n == decimal_value(digits_part(text@)),
{
    let n = text.unicode_len();
    let ghost s = text@;
    let start: usize = if n > 0 && text.get_char(0) == '+' { 1 } else { 0 };
    let ghost d = digits_part(s);
    assert(d =~= s.subrange(start as int, n as int));
    if start == n {
        return Err(NumberError::NotANumber);
    }
    // Values above `u32::MAX` are held at `cap`: later digits cannot bring
    // them back into range.
    let cap: u64 = 0x1_0000_0000;
    let mut value: u64 = 0;
    let mut i: usize = start;
    while i < n
        invariant
            n == s.len(),
            s == text@,
            d == digits_part(s),
            d =~= s.subrange(start as int, n as int),
            start <= i <= n,
            cap == 0x1_0000_0000,
            forall|k: int| 0 <= k < i - start ==> is_digit(#[trigger] d[k]),
            value as int == if decimal_value(d.take(i - start)) < cap {
                decimal_value(d.take(i - start))
            } else {
                cap as int
            },
        decreases n - i,
    {
        let c = text.get_char(i);
        if !('0' <= c && c <= '9') {
            assert(!is_digit(d[i - start]));
            return Err(NumberError::NotANumber);
        }
        let ghost prev = decimal_value(d.take(i - start));
        proof {
            assert(d.take(i - start + 1).drop_last() =~= d.take(i - start));
            assert(d[i - start] == c);
        }
        let digit = (c as u32 - '0' as u32) as u64;
        let next = value * 10 + digit;
        value = if next < cap { next } else { cap };
        proof {
            let now = decimal_value(d.take(i - start + 1));
            assert(now == 10 * prev + digit);
            if prev >= cap {
                assert(now >= cap);
            }
        }
        i = i + 1;
    }
    assert(d.take(n - start) =~= d);
    if value < cap {
        Ok(value as u32)
    } else {
        Err(NumberError::OutOfRange)
    }
}

/// The three integer inputs of a simulation.
#[derive(Clone, Copy, Debug, PartialEq, Eq, Structural)]
pub struct SimulationParameters {
    /// Samples per second.
    pub sampling_freq: u32,
    /// Carrier frequency in Hz.
    pub carrier_freq: u32,
    /// Symbols per second; each symbol carries two bits.
    pub symbol_rate: u32,
}

impl SimulationParameters {
    /// Every frequency is positive.
    pub open spec fn valid(&self) -> bool {
        self.sampling_freq > 0 && self.carrier_freq > 0 && self.symbol_rate > 0
    }

    /// Builds the parameters, refusing a zero frequency or rate (the first one
    /// found, in the order of the arguments).
    pub fn new(sampling_freq: u32, carrier_freq: u32, symbol_rate: u32) -> (r: Result<
        SimulationParameters,
        ParameterError,
    >)
        ensures
            sampling_freq == 0 <==> r == Err::<SimulationParameters, ParameterError>(
                ParameterError::ZeroSamplingFreq,
            ),
            sampling_freq > 0 && carrier_freq == 0 <==> r == Err::<
                SimulationParameters,
                ParameterError,
            >(ParameterError::ZeroCarrierFreq),
            sampling_freq > 0 && carrier_freq > 0 && symbol_rate == 0 <==> r == Err::<
                SimulationParameters,
                ParameterError,
            >(ParameterError::ZeroSymbolRate),
            r is Ok <==> sampling_freq > 0 && carrier_freq > 0 && symbol_rate > 0,
            r matches Ok(p) ==> p.valid() && p.sampling_freq == sampling_freq && p.carrier_freq
                == carrier_freq && p.symbol_rate == symbol_rate,
    {
        if sampling_freq == 0 {
            Err(ParameterError::ZeroSamplingFreq)
        } else if carrier_freq == 0 {
            Err(ParameterError::ZeroCarrierFreq)
        } else if symbol_rate == 0 {
            Err(ParameterError::ZeroSymbolRate)
        } else {
            Ok(SimulationParameters { sampling_freq, carrier_freq, symbol_rate })
        }
    }
}

/// An exact non-negative rational number `num / den`.
#[derive(Clone, Copy, Debug, PartialEq, Eq, Structural)]
pub struct Ratio {
    pub num: u128,
    pub den: u128,
}

/// How the real number of samples per bit becomes a whole count.
#[derive(Clone, Copy, Debug, PartialEq, Eq, Structural)]
pub enum Rounding {
    /// Toward zero: the fractional part is dropped.
    Floor,
    /// To the nearest whole number, halves upward.
    Nearest,
}

/// `sampling_freq / (2 * symbol_rate)` samples per bit, made whole.
pub open spec fn samples_per_bit_of(sampling_freq: int, symbol_rate: int, rounding: Rounding) -> int {
    match rounding {
        Rounding::Floor => sampling_freq / (2 * symbol_rate),
        Rounding::Nearest => (sampling_freq + symbol_rate) / (2 * symbol_rate),
    }
}

/// The quantities derived once from the parameters and the stream length.
///
/// Time is also given in ticks of `1 / (2 * symbol_rate * sampling_freq)`
/// seconds, in which every instant of the carrier grid is a whole number.
#[derive(Clone, Copy, Debug, PartialEq, Eq, Structural)]
pub struct DerivedParameters {
    /// Bits per second: two per symbol.
    pub bit_rate: u64,
    /// Seconds per symbol.
    pub symbol_period: Ratio,
    /// Seconds taken by the whole stream.
    pub duration: Ratio,
    /// Seconds per sample.
    pub sample_period: Ratio,
    /// Samples taken over the whole stream.
    pub sample_count: Ratio,
    /// Samples per bit, made whole by the chosen rounding.
    pub samples_per_bit: usize,
    /// The square of the carrier amplitude, `2 / symbol_period`.
    pub amplitude_squared: u64,
    /// Ticks per second.
    pub ticks_per_second: u128,
    /// The duration in ticks.
    pub duration_ticks: u128,
    /// Ticks between two carrier samples: two sample periods.
    pub grid_step_ticks: u128,
}

/// `d` holds the quantities derived from `p` for a stream of `bit_count`
/// bits.
pub open spec fn derived_matches(
    d: DerivedParameters,
    p: SimulationParameters,
    bit_count: int,
    rounding: Rounding,
) -> bool {
    &&& d.bit_rate == 2 * p.symbol_rate
    &&& d.symbol_period.num == 1
    &&& d.symbol_period.den == p.symbol_rate
    &&& d.duration.num == bit_count
    &&& d.duration.den == 2 * p.symbol_rate
    &&& d.sample_period.num == 1
    &&& d.sample_period.den == p.sampling_freq
    &&& d.sample_count.num == bit_count * p.sampling_freq
    &&& d.sample_count.den == 2 * p.symbol_rate
    &&& d.samples_per_bit == samples_per_bit_of(p.sampling_freq as int, p.symbol_rate as int, rounding)
    &&& d.amplitude_squared == 2 * p.symbol_rate
    &&& d.ticks_per_second == 2 * p.symbol_rate * p.sampling_freq
    &&& d.duration_ticks == bit_count * p.sampling_freq
    &&& d.grid_step_ticks == 4 * p.symbol_rate
}

/// Computes the derived quantities for a stream of `bit_count` bits.
pub fn derive_parameters(p: &SimulationParameters, bit_count: usize, rounding: Rounding) -> (r:
    DerivedParameters)
    requires
        p.valid(),
    ensures
        derived_matches(r, *p, bit_count as int, rounding),
{
    let fs = p.sampling_freq as u128;
    let sr = p.symbol_rate as u128;
    let n = bit_count as u128;
    assert(n * fs <= 0xffff_ffff_ffff_ffff * 0xffff_ffffu128) by (nonlinear_arith)
        requires
            n <= 0xffff_ffff_ffff_ffff,
            fs <= 0xffff_ffff,
    ;
    assert(2 * sr * fs <= 2 * 0xffff_ffffu128 * 0xffff_ffffu128) by (nonlinear_arith)
        requires
            sr <= 0xffff_ffff,
            fs <= 0xffff_ffff,
    ;
    let spb = match rounding {
        Rounding::Floor => p.sampling_freq as u64 / (2 * p.symbol_rate as u64),
        Rounding::Nearest => (p.sampling_freq as u64 + p.symbol_rate as u64) / (2
            * p.symbol_rate as u64),
    };
    assert(spb <= p.sampling_freq) by (nonlinear_arith)
        requires
            p.symbol_rate >= 1,
            spb == samples_per_bit_of(p.sampling_freq as int, p.symbol_rate as int, rounding),
            p.sampling_freq >= 1,
    ;
    DerivedParameters {
        bit_rate: 2 * p.symbol_rate as u64,
        symbol_period: Ratio { num: 1, den: sr },
        duration: Ratio { num: n, den: 2 * sr },
        sample_period: Ratio { num: 1, den: fs },
        sample_count: Ratio { num: n * fs, den: 2 * sr },
        samples_per_bit: spb as usize,
        amplitude_squared: 2 * p.symbol_rate as u64,
        ticks_per_second: 2 * sr * fs,
        duration_ticks: n * fs,
        grid_step_ticks: 4 * sr,
    }
}

} // verus!
