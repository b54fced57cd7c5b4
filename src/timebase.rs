use vstd::prelude::*;

verus! {

/// Why a time grid could not be built.
#[derive(Clone, Copy, Debug, PartialEq, Eq, Structural)]
pub enum TimeBaseError {
    /// A step of zero would never reach the end of the range.
    NonPositiveStep,
}

/// The number of instants `min, min + step, min + 2 * step, ...` that lie
/// strictly below `max`: the ceiling of `(max - min) / step`.
pub open spec fn grid_len(min: int, max: int, step: int) -> int {
    if max <= min {
        0
    } else {
        (max - min - 1) / step + 1
    }
}

proof fn lemma_grid_len_bounds(min: int, max: int, step: int)
    requires
        step > 0,
    ensures
        grid_len(min, max, step) >= 0,
        max > min ==> grid_len(min, max, step) >= 1,
        max > min ==> (grid_len(min, max, step) - 1) * step < max - min,
        min + grid_len(min, max, step) * step >= max,
{
    if max > min {
        let d = max - min;
        let q = (d - 1) / step;
        assert(q >= 0) by (nonlinear_arith)
            requires
                d >= 1,
                step > 0,
                q == (d - 1) / step,
        ;
        assert(q * step <= d - 1 && (q + 1) * step >= d) by (nonlinear_arith)
            requires
                d >= 1,
                step > 0,
                q == (d - 1) / step,
        ;
    }
}

/// Every instant of the grid lies in `[min, max)`, the first one is `min`
/// whenever the range is not empty, and the next instant after the last would
/// reach `max`: the grid holds exactly the ceiling of `(max - min) / step`
/// instants.
pub proof fn lemma_time_grid_coverage(min: int, max: int, step: int)
    requires
        step > 0,
    ensures
        forall|k: int|
            0 <= k < grid_len(min, max, step) ==> min <= #[trigger] (min + k * step) < max,
        max > min ==> grid_len(min, max, step) >= 1,
        min + grid_len(min, max, step) * step >= max,
{
    lemma_grid_len_bounds(min, max, step);
    let n = grid_len(min, max, step);
    assert forall|k: int| 0 <= k < n implies min <= #[trigger] (min + k * step) < max by {
        assert(0 <= k * step <= (n - 1) * step) by (nonlinear_arith)
            requires
                0 <= k < n,
                step > 0,
        ;
    }
}

/// The instants `min, min + step, min + 2 * step, ...` strictly below `max`.
/// A zero step is refused.
pub fn create_time(min: u128, max: u128, step: u128) -> (r: Result<Vec<u128>, TimeBaseError>)
    requires
        step > 0 ==> grid_len(min as int, max as int, step as int) <= usize::MAX,
    ensures
        step == 0 <==> r == Err::<Vec<u128>, TimeBaseError>(TimeBaseError::NonPositiveStep),
        r matches Ok(v) ==> v@.len() == grid_len(min as int, max as int, step as int) && forall|
            k: int,
        |
            0 <= k < v@.len() ==> #[trigger] v@[k] == min + k * step,
{
    if step == 0 {
        Err(TimeBaseError::NonPositiveStep)
    } else {
        Ok(time_grid(min, max, step))
    }
}

/// The grid of `create_time` for a positive step.
pub fn time_grid(min: u128, max: u128, step: u128) -> (r: Vec<u128>)
    requires
        step > 0,
        grid_len(min as int, max as int, step as int) <= usize::MAX,
    ensures
        r@.len() == grid_len(min as int, max as int, step as int),
        forall|k: int| 0 <= k < r@.len() ==> #[trigger] r@[k] == min + k * step,
{
    let n: u128 = if max <= min {
        0
    } else {
        (max - min - 1) / step + 1
    };
    proof {
        lemma_time_grid_coverage(min as int, max as int, step as int);
    }
    let count = n as usize;
    let mut time: Vec<u128> = Vec::with_capacity(count);
    let mut k: usize = 0;
    while k < count
        invariant
            count == n,
            n == grid_len(min as int, max as int, step as int),
            step > 0,
            k <= count,
            time@.len() == k,
            forall|j: int| 0 <= j < k ==> #[trigger] time@[j] == min + j * step,
            forall|j: int| 0 <= j < n ==> min <= #[trigger] (min + j * step) < max,
        decreases count - k,
    {
        assert(min <= min + k * step < max);
        assert(k * step == (k as u128) * step);
        let t = min + (k as u128) * step;
        time.push(t);
        k = k + 1;
    }
    time
}

} // verus!
