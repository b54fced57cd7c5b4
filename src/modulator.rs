use vstd::prelude::*;
use crate::bits::{bits_of, bits_len, even_demultiplexor, even_positions, odd_positions};
use crate::carrier::{carrier_phases, phase_at};
use crate::nrz::{nrz_encoder, nrz_signal};
use crate::params::{derive_parameters, derived_matches, DerivedParameters, Rounding, SimulationParameters};
use crate::timebase::{grid_len, time_grid};

verus! {

/// One sample of the QPSK waveform. With `phi = 2 * pi * phase /
/// ticks_per_second` and `a` the carrier amplitude, its value is
/// `sqrt(eb) * a * (in_phase * cos(phi) + quadrature * sin(phi))`.
#[derive(Clone, Copy, Debug, PartialEq, Eq, Structural)]
pub struct QpskSample {
    /// The NRZ level of the in-phase branch, `+1` or `-1`.
    pub in_phase: i8,
    /// The NRZ level of the quadrature branch, `+1` or `-1`.
    pub quadrature: i8,
    /// The carrier phase, as a fraction of a turn over the tick rate.
    pub phase: u128,
}

/// The branches handed to the modulator do not line up.
#[derive(Clone, Copy, Debug, PartialEq, Eq, Structural)]
pub enum ModulationError {
    /// The two line-coded branches and the carrier have these lengths, which
    /// are not all equal.
    LengthMismatch { in_phase: usize, quadrature: usize, carrier: usize },
}

/// The samples that pair the `k`-th in-phase level, quadrature level and
/// carrier phase.
pub open spec fn combine(i: Seq<i8>, q: Seq<i8>, phases: Seq<u128>) -> Seq<QpskSample> {
    Seq::new(
        phases.len(),
        |k: int| QpskSample { in_phase: i[k], quadrature: q[k], phase: phases[k] },
    )
}

/// Multiplies each line-coded branch by its carrier and adds the two, sample
/// by sample. Branches of different lengths are refused: nothing is truncated
/// and nothing is read out of range.
pub fn modulate(in_phase: &Vec<i8>, quadrature: &Vec<i8>, phases: &Vec<u128>) -> (r: Result<
    Vec<QpskSample>,
    ModulationError,
>)
    ensures
        r is Ok <==> in_phase@.len() == phases@.len() && quadrature@.len() == phases@.len(),
        r matches Err(e) ==> e == (ModulationError::LengthMismatch {
            in_phase: in_phase@.len() as usize,
            quadrature: quadrature@.len() as usize,
            carrier: phases@.len() as usize,
        }),
        r matches Ok(v) ==> v@ == combine(in_phase@, quadrature@, phases@),
{
    let n = phases.len();
    if in_phase.len() != n || quadrature.len() != n {
        return Err(
            ModulationError::LengthMismatch {
                in_phase: in_phase.len(),
                quadrature: quadrature.len(),
                carrier: n,
            },
        );
    }
    let mut out: Vec<QpskSample> = Vec::with_capacity(n);
    let mut k: usize = 0;
    while k < n
        invariant
            n == phases@.len(),
            n == in_phase@.len(),
            n == quadrature@.len(),
            k <= n,
            out@ =~= combine(in_phase@, quadrature@, phases@).take(k as int),
        decreases n - k,
    {
        out.push(QpskSample { in_phase: in_phase[k], quadrature: quadrature[k], phase: phases[k] });
        k = k + 1;
    }
    assert(combine(in_phase@, quadrature@, phases@).take(n as int) =~= combine(
        in_phase@,
        quadrature@,
        phases@,
    ));
    Ok(out)
}

/// Everything computed for one run of the modulator.
pub struct ModulationPlan {
    /// The derived quantities of the run.
    pub derived: DerivedParameters,
    /// The bits at even positions, carried by the cosine carrier.
    pub in_phase_bits: bit_vec::BitVec,
    /// The bits at odd positions, carried by the sine carrier.
    pub quadrature_bits: bit_vec::BitVec,
    /// The carrier grid, in ticks.
    pub time: Vec<u128>,
    /// The waveform, one entry per instant of `time`.
    pub samples: Vec<QpskSample>,
}

/// The carrier grid of a stream of `bit_count` bits: every second sampling
/// instant, from zero up to the duration.
pub open spec fn carrier_grid_len(p: SimulationParameters, bit_count: int) -> int {
    grid_len(0, bit_count * p.sampling_freq, 4 * p.symbol_rate)
}

/// The line-coded branches of a stream fit its carrier grid.
pub open spec fn branches_fit(
    p: SimulationParameters,
    b: Seq<bool>,
    rounding: Rounding,
) -> bool {
    let spb = crate::params::samples_per_bit_of(p.sampling_freq as int, p.symbol_rate as int, rounding);
    &&& even_positions(b).len() * spb == carrier_grid_len(p, b.len() as int)
    &&& odd_positions(b).len() * spb == carrier_grid_len(p, b.len() as int)
}

/// Runs the modulator on a bit stream: demultiplexes it, encodes both halves
/// as NRZ, builds the carrier grid and its phases, and pairs them sample by
/// sample. The run fails when the line-coded branches and the carrier grid
/// differ in length, as they do when the whole samples per bit do not add up
/// to the duration.
pub fn plan_modulation(
    p: &SimulationParameters,
    bits: &bit_vec::BitVec,
    rounding: Rounding,
) -> (r: Result<ModulationPlan, ModulationError>)
    requires
        p.valid(),
        bits_of(*bits).len() * p.sampling_freq <= usize::MAX,
    ensures
        r is Ok <==> branches_fit(*p, bits_of(*bits), rounding),
        r matches Ok(plan) ==> {
            let b = bits_of(*bits);
            let d = plan.derived;
            let spb = d.samples_per_bit as nat;
            &&& derived_matches(d, *p, b.len() as int, rounding)
            &&& bits_of(plan.in_phase_bits) == even_positions(b)
            &&& bits_of(plan.quadrature_bits) == odd_positions(b)
            &&& plan.time@.len() == carrier_grid_len(*p, b.len() as int)
            &&& forall|k: int|
                0 <= k < plan.time@.len() ==> #[trigger] plan.time@[k] == k * d.grid_step_ticks
            &&& plan.samples@ == combine(
                nrz_signal(even_positions(b), spb),
                nrz_signal(odd_positions(b), spb),
                Seq::new(
                    plan.time@.len(),
                    |k: int|
                        phase_at(
                            p.carrier_freq as int,
                            plan.time@[k] as int,
                            d.ticks_per_second as int,
                        ) as u128,
                ),
            )
        },
{
    let ghost b = bits_of(*bits);
    let n = bits_len(bits);
    let d = derive_parameters(p, n, rounding);
    let (first, second) = even_demultiplexor(bits);
    let spb = d.samples_per_bit;
    assert(spb <= p.sampling_freq) by (nonlinear_arith)
        requires
            p.symbol_rate >= 1,
            spb == crate::params::samples_per_bit_of(
                p.sampling_freq as int,
                p.symbol_rate as int,
                rounding,
            ),
    ;
    assert(even_positions(b).len() * spb <= n * p.sampling_freq && odd_positions(b).len() * spb
        <= n * p.sampling_freq) by (nonlinear_arith)
        requires
            even_positions(b).len() <= n,
            odd_positions(b).len() <= n,
            spb <= p.sampling_freq,
    ;
    let in_phase = nrz_encoder(&first, spb);
    let quadrature = nrz_encoder(&second, spb);
    assert(grid_len(0, d.duration_ticks as int, d.grid_step_ticks as int) <= d.duration_ticks)
        by (nonlinear_arith)
        requires
            d.grid_step_ticks >= 1,
    ;
    let time = time_grid(0, d.duration_ticks, d.grid_step_ticks);
    assert(d.ticks_per_second > 0 && d.ticks_per_second * p.carrier_freq <= u128::MAX)
        by (nonlinear_arith)
        requires
            d.ticks_per_second == 2 * p.symbol_rate * p.sampling_freq,
            p.symbol_rate <= u32::MAX,
            p.sampling_freq <= u32::MAX,
            p.carrier_freq <= u32::MAX,
            p.symbol_rate >= 1,
            p.sampling_freq >= 1,
    ;
    let phases = carrier_phases(&time, p.carrier_freq, d.ticks_per_second);
    let ghost phase_seq = Seq::new(
        time@.len(),
        |k: int| phase_at(p.carrier_freq as int, time@[k] as int, d.ticks_per_second as int) as u128,
    );
    assert(phases@ =~= phase_seq);
    match modulate(&in_phase, &quadrature, &phases) {
        Ok(samples) => Ok(
            ModulationPlan { derived: d, in_phase_bits: first, quadrature_bits: second, time, samples },
        ),
        Err(e) => Err(e),
    }
}

} // verus!
