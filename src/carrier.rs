use vstd::prelude::*;
use vstd::arithmetic::div_mod::lemma_mul_mod_noop_right;

verus! {

/// The phase of a carrier of `carrier_freq` Hz at instant `t` (in ticks of
/// `1 / ticks_per_second` seconds), as the numerator of a fraction of a turn
/// over `ticks_per_second`.
pub open spec fn phase_at(carrier_freq: int, t: int, ticks_per_second: int) -> int {
    (carrier_freq * t) % ticks_per_second
}

/// The carrier phase at every instant of `time`, each reduced to a fraction
/// of a turn: the carrier sample is `amplitude * sin(2 * pi * r[k] /
/// ticks_per_second)` (or `cos`), which equals the carrier at `time[k]`.
pub fn carrier_phases(time: &Vec<u128>, carrier_freq: u32, ticks_per_second: u128) -> (r: Vec<
    u128,
>)
    requires
        ticks_per_second > 0,
        ticks_per_second * carrier_freq <= u128::MAX,
    ensures
        r@.len() == time@.len(),
        forall|k: int|
            0 <= k < r@.len() ==> #[trigger] r@[k] == phase_at(
                carrier_freq as int,
                time@[k] as int,
                ticks_per_second as int,
            ),
        forall|k: int| 0 <= k < r@.len() ==> #[trigger] r@[k] < ticks_per_second,
{
    let n = time.len();
    let fc = carrier_freq as u128;
    let mut phases: Vec<u128> = Vec::with_capacity(n);
    let mut k: usize = 0;
    while k < n
        invariant
            n == time@.len(),
            fc == carrier_freq,
            ticks_per_second > 0,
            ticks_per_second * fc <= u128::MAX,
            k <= n,
            phases@.len() == k,
            forall|j: int|
                0 <= j < k ==> #[trigger] phases@[j] == phase_at(
                    carrier_freq as int,
                    time@[j] as int,
                    ticks_per_second as int,
                ),
            forall|j: int| 0 <= j < k ==> #[trigger] phases@[j] < ticks_per_second,
        decreases n - k,
    {
        let t = time[k];
        let reduced = t % ticks_per_second;
        assert(fc * reduced <= ticks_per_second * fc) by (nonlinear_arith)
            requires
                reduced < ticks_per_second,
                fc >= 0,
        ;
        let p = (fc * reduced) % ticks_per_second;
        proof {
            lemma_mul_mod_noop_right(fc as int, t as int, ticks_per_second as int);
        }
        phases.push(p);
        k = k + 1;
    }
    phases
}

} // verus!
