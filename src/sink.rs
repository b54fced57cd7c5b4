use vstd::prelude::*;

verus! {

/// A signal cut into lines of `n` samples each; the samples that do not fill
/// a last line are left out.
pub open spec fn lines_of<T>(s: Seq<T>, n: nat) -> Seq<Seq<T>> {
    Seq::new(s.len() / n, |i: int| s.subrange(i * n, i * n + n))
}

proof fn lemma_line_in_range(len: int, n: int, i: int)
    requires
        n > 0,
        len >= 0,
        0 <= i < len / n,
    ensures
        0 <= i * n,
        i * n + n <= len,
{
    assert(0 <= i * n && i * n + n <= (len / n) * n) by (nonlinear_arith)
        requires
            n > 0,
            0 <= i < len / n,
    ;
    assert((len / n) * n <= len) by (nonlinear_arith)
        requires
            n > 0,
            len >= 0,
    ;
}

proof fn lemma_flatten_prefix<T>(s: Seq<T>, n: nat, m: int)
    requires
        n > 0,
        0 <= m <= s.len() / n,
    ensures
        lines_of(s, n).take(m).flatten() == s.take(m * n),
    decreases m,
{
    let lines = lines_of(s, n);
    if m == 0 {
        assert(lines.take(0) =~= Seq::<Seq<T>>::empty());
        assert(s.take(0) =~= Seq::<T>::empty());
    } else {
        lemma_flatten_prefix(s, n, m - 1);
        lemma_line_in_range(s.len() as int, n as int, m - 1);
        let line = s.subrange((m - 1) * n, (m - 1) * n + n);
        assert(lines.take(m) =~= lines.take(m - 1).push(line));
        lines.take(m - 1).lemma_flatten_push(line);
        assert((m - 1) * n + n == m * n) by (nonlinear_arith);
        assert(s.take((m - 1) * n) + line =~= s.take(m * n));
    }
}

/// Cutting a signal into lines of `n` samples keeps every line at `n`
/// samples, and joining the lines again gives back the signal up to its last
/// whole line: the whole signal when `n` divides its length.
pub proof fn lemma_lines_round_trip<T>(s: Seq<T>, n: nat)
    requires
        n > 0,
    ensures
        forall|i: int| 0 <= i < lines_of(s, n).len() ==> (#[trigger] lines_of(s, n)[i]).len() == n,
        lines_of(s, n).flatten() == s.take((s.len() / n) * n as int),
        s.len() % n == 0 ==> lines_of(s, n).flatten() == s,
{
    let lines = lines_of(s, n);
    assert forall|i: int| 0 <= i < lines.len() implies (#[trigger] lines[i]).len() == n by {
        lemma_line_in_range(s.len() as int, n as int, i);
    }
    lemma_flatten_prefix(s, n, lines.len() as int);
    assert(lines.take(lines.len() as int) =~= lines);
    if s.len() % n == 0 {
        assert((s.len() / n) * n == s.len()) by (nonlinear_arith)
            requires
                n > 0,
                s.len() % n == 0,
        ;
        assert(s.take(s.len() as int) =~= s);
    }
}

/// Cuts a signal into lines of `samples_per_line` samples, one line per
/// symbol interval; samples that do not fill a last line are left out.
pub fn split_lines<T: Copy>(signal: &Vec<T>, samples_per_line: usize) -> (r: Vec<Vec<T>>)
    requires
        samples_per_line > 0,
    ensures
        r@.len() == signal@.len() / samples_per_line as nat,
        forall|i: int|
            0 <= i < r@.len() ==> (#[trigger] r@[i])@ == lines_of(
                signal@,
                samples_per_line as nat,
            )[i],
{
    let n = samples_per_line;
    let total = signal.len();
    let count = total / n;
    let mut lines: Vec<Vec<T>> = Vec::with_capacity(count);
    let mut i: usize = 0;
    while i < count
        invariant
            n > 0,
            total == signal@.len(),
            count == signal@.len() / n as nat,
            i <= count,
            lines@.len() == i,
            forall|l: int|
                0 <= l < i ==> (#[trigger] lines@[l])@ == lines_of(signal@, n as nat)[l],
        decreases count - i,
    {
        proof {
            lemma_line_in_range(signal@.len() as int, n as int, i as int);
        }
        let start = i * n;
        let mut line: Vec<T> = Vec::with_capacity(n);
        let mut j: usize = 0;
        while j < n
            invariant
                n > 0,
                start == i * n,
                start + n <= total,
                total == signal@.len(),
                j <= n,
                line@ =~= signal@.subrange(start as int, start + j),
            decreases n - j,
        {
            line.push(signal[start + j]);
            j = j + 1;
        }
        lines.push(line);
        i = i + 1;
    }
    lines
}

} // verus!
