use vstd::prelude::*;
use vstd::arithmetic::div_mod::lemma_fundamental_div_mod_converse_div;
use crate::bits::{bits_of, bits_len, bits_get};

verus! {

/// The bipolar NRZ level of a bit: `+1` for a one, `-1` for a zero. The
/// signal amplitude is this level times `sqrt(eb)`.
pub open spec fn nrz_level(b: bool) -> i8 {
    if b {
        1i8
    } else {
        -1i8
    }
}

/// The NRZ signal of a bit stream: each bit held for `samples_per_bit`
/// samples.
pub open spec fn nrz_signal(b: Seq<bool>, samples_per_bit: nat) -> Seq<i8> {
    Seq::new(b.len() * samples_per_bit, |k: int| nrz_level(b[k / samples_per_bit as int]))
}

proof fn lemma_sample_position(i: int, j: int, spb: int)
    requires
        0 <= j < spb,
        0 <= i,
    ensures
        (i * spb + j) / spb == i,
{
    lemma_fundamental_div_mod_converse_div(i * spb + j, spb, i, j);
}

/// Sample `j` of bit `i` of the NRZ signal is that bit's level, for every
/// `j` below `samples_per_bit`: each bit yields exactly `samples_per_bit`
/// samples, all at `+sqrt(eb)` for a one and `-sqrt(eb)` for a zero.
pub proof fn lemma_nrz_amplitude(b: Seq<bool>, samples_per_bit: nat, i: int, j: int)
    requires
        0 <= i < b.len(),
        0 <= j < samples_per_bit,
    ensures
        nrz_signal(b, samples_per_bit).len() == b.len() * samples_per_bit,
        i * samples_per_bit + j < b.len() * samples_per_bit,
        nrz_signal(b, samples_per_bit)[i * samples_per_bit + j] == nrz_level(b[i]),
{
    let spb = samples_per_bit as int;
    lemma_sample_position(i, j, spb);
    assert(i * spb + j < b.len() * spb) by (nonlinear_arith)
        requires
            0 <= i < b.len(),
            0 <= j < spb,
    ;
}

/// Encodes a bit stream as bipolar NRZ levels, `samples_per_bit` samples per
/// bit; with zero samples per bit the signal is empty.
pub fn nrz_encoder(bit_stream: &bit_vec::BitVec, samples_per_bit: usize) -> (r: Vec<i8>)
    requires
        bits_of(*bit_stream).len() * samples_per_bit <= usize::MAX,
    ensures
        r@ == nrz_signal(bits_of(*bit_stream), samples_per_bit as nat),
{
    let ghost b = bits_of(*bit_stream);
    let n = bits_len(bit_stream);
    let total = n * samples_per_bit;
    let mut signal: Vec<i8> = Vec::with_capacity(total);
    let mut i: usize = 0;
    while i < n
        invariant
            b == bits_of(*bit_stream),
            n == b.len(),
            total == n * samples_per_bit,
            i <= n,
            signal@.len() == i * samples_per_bit,
            forall|m: int|
                0 <= m < signal@.len() ==> #[trigger] signal@[m] == nrz_level(
                    b[m / samples_per_bit as int],
                ),
        decreases n - i,
    {
        let level: i8 = match bits_get(bit_stream, i) {
            Some(true) => 1,
            _ => -1,
        };
        assert((i + 1) * samples_per_bit <= n * samples_per_bit) by (nonlinear_arith)
            requires
                i < n,
        ;
        let mut j: usize = 0;
        while j < samples_per_bit
            invariant
                b == bits_of(*bit_stream),
                n == b.len(),
                i < n,
                (i + 1) * samples_per_bit <= n * samples_per_bit <= usize::MAX,
                j <= samples_per_bit,
                level == nrz_level(b[i as int]),
                signal@.len() == i * samples_per_bit + j,
                forall|m: int|
                    0 <= m < signal@.len() ==> #[trigger] signal@[m] == nrz_level(
                        b[m / samples_per_bit as int],
                    ),
            decreases samples_per_bit - j,
        {
            proof {
                lemma_sample_position(i as int, j as int, samples_per_bit as int);
                assert((i + 1) * samples_per_bit == i * samples_per_bit + samples_per_bit)
                    by (nonlinear_arith);
            }
            signal.push(level);
            j = j + 1;
        }
        assert((i + 1) * samples_per_bit == i * samples_per_bit + samples_per_bit)
            by (nonlinear_arith);
        i = i + 1;
    }
    assert(signal@ =~= nrz_signal(b, samples_per_bit as nat));
    signal
}

} // verus!
