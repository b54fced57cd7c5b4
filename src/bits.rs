use vstd::prelude::*;

verus! {

/// Makes `bit_vec::BitVec` usable in signatures and fields of verified code.
#[verifier::external_type_specification]
#[verifier::external_body]
#[verifier::reject_recursive_types(B)]
pub struct ExBitVec<B>(bit_vec::BitVec<B>);

/// The bits held by a `BitVec`, in order.
pub uninterp spec fn bits_of(v: bit_vec::BitVec) -> Seq<bool>;

/// Relies on `BitVec::new`: the new vector holds no bits.
#[verifier::external_body]
pub(crate) fn bits_new() -> (r: bit_vec::BitVec)
    ensures
        bits_of(r) == Seq::<bool>::empty(),
{
    bit_vec::BitVec::new()
}

/// Relies on `BitVec::push`: appends one bit; it panics only when the length
/// would pass `usize::MAX`.
#[verifier::external_body]
pub(crate) fn bits_push(v: &mut bit_vec::BitVec, b: bool)
    requires
        bits_of(*old(v)).len() < usize::MAX,
    ensures
        bits_of(*final(v)) == bits_of(*old(v)).push(b),
{
    v.push(b)
}

/// Relies on `BitVec::len`: the number of bits held.
#[verifier::external_body]
pub(crate) fn bits_len(v: &bit_vec::BitVec) -> (r: usize)
    ensures
        r == bits_of(*v).len(),
{
    v.len()
}

/// Relies on `BitVec::get`: the bit at `i`, or `None` past the end.
#[verifier::external_body]
pub(crate) fn bits_get(v: &bit_vec::BitVec, i: usize) -> (r: Option<bool>)
    ensures
        i < bits_of(*v).len() ==> r == Some(bits_of(*v)[i as int]),
        i >= bits_of(*v).len() ==> r is None,
{
    v.get(i)
}

/// The character that writes one bit: `'1'` or `'0'`.
pub open spec fn bit_char(b: bool) -> char {
    if b { '1' } else { '0' }
}

/// The bits written in a text: each `'1'` is a one, each `'0'` a zero, and
/// every other character is ignored.
pub open spec fn bits_from_text(s: Seq<char>) -> Seq<bool>
    decreases s.len(),
{
    if s.len() == 0 {
        Seq::empty()
    } else {
        let prefix = bits_from_text(s.drop_last());
        if s.last() == '1' {
            prefix.push(true)
        } else if s.last() == '0' {
            prefix.push(false)
        } else {
            prefix
        }
    }
}

/// The bits at even positions (0, 2, 4, ...), in order.
pub open spec fn even_positions(b: Seq<bool>) -> Seq<bool> {
    Seq::new(((b.len() + 1) / 2) as nat, |k: int| b[2 * k])
}

/// The bits at odd positions (1, 3, 5, ...), in order.
pub open spec fn odd_positions(b: Seq<bool>) -> Seq<bool> {
    Seq::new((b.len() / 2) as nat, |k: int| b[2 * k + 1])
}

/// Alternates the elements of `x` and `y`, starting with `x`.
pub open spec fn interleave(x: Seq<bool>, y: Seq<bool>) -> Seq<bool> {
    Seq::new(x.len() + y.len(), |k: int| if k % 2 == 0 { x[k / 2] } else { y[k / 2] })
}

proof fn lemma_bits_from_text_len(s: Seq<char>)
    ensures
        bits_from_text(s).len() <= s.len(),
    decreases s.len(),
{
    if s.len() > 0 {
        lemma_bits_from_text_len(s.drop_last());
    }
}

/// Reads the bits written in `text`: every `'1'` and `'0'` in order, every
/// other character skipped.
pub fn parse_bits(text: &str) -> (r: bit_vec::BitVec)
    ensures
        bits_of(r) == bits_from_text(text@),
{
    let n = text.unicode_len();
    let mut out = bits_new();
    let mut i: usize = 0;
    while i < n
        invariant
            n == text@.len(),
            i <= n,
            bits_of(out) == bits_from_text(text@.take(i as int)),
        decreases n - i,
    {
        let c = text.get_char(i);
        proof {
            assert(text@.take(i + 1).drop_last() =~= text@.take(i as int));
            lemma_bits_from_text_len(text@.take(i as int));
        }
        if c == '1' {
            bits_push(&mut out, true);
        } else if c == '0' {
            bits_push(&mut out, false);
        }
        i = i + 1;
    }
    assert(text@.take(n as int) =~= text@);
    out
}

/// Accepts a line of input as a bit stream when it holds an even number of
/// bits; a line with an odd number of bits is refused with `None`.
pub fn accept_bitstream(line: &str) -> (r: Option<bit_vec::BitVec>)
    ensures
        bits_from_text(line@).len() % 2 == 0 <==> r is Some,
        r matches Some(b) ==> bits_of(b) == bits_from_text(line@),
{
    let b = parse_bits(line);
    if bits_len(&b) % 2 == 0 {
        Some(b)
    } else {
        None
    }
}

/// Splits a bit stream by position: the bits at even indices go to the first
/// result, those at odd indices to the second, each in its original order.
pub fn even_demultiplexor(data: &bit_vec::BitVec) -> (r: (bit_vec::BitVec, bit_vec::BitVec))
    ensures
        bits_of(r.0) == even_positions(bits_of(*data)),
        bits_of(r.1) == odd_positions(bits_of(*data)),
{
    let ghost b = bits_of(*data);
    let n = bits_len(data);
    let mut first = bits_new();
    let mut second = bits_new();
    let mut i: usize = 0;
    while i < n
        invariant
            n == b.len(),
            b == bits_of(*data),
            i <= n,
            bits_of(first).len() == (i + 1) / 2,
            bits_of(second).len() == i / 2,
            forall|k: int| 0 <= k < bits_of(first).len() ==> bits_of(first)[k] == b[2 * k],
            forall|k: int| 0 <= k < bits_of(second).len() ==> bits_of(second)[k] == b[2 * k + 1],
        decreases n - i,
    {
        let bit = match bits_get(data, i) {
            Some(x) => x,
            None => false,
        };
        if i % 2 == 0 {
            bits_push(&mut first, bit);
        } else {
            bits_push(&mut second, bit);
        }
        i = i + 1;
    }
    assert(bits_of(first) =~= even_positions(b));
    assert(bits_of(second) =~= odd_positions(b));
    (first, second)
}

/// Demultiplexing an even-length stream gives two halves of equal length that,
/// taken alternately, give back the stream.
pub proof fn lemma_demux_partition(b: Seq<bool>)
    requires
        b.len() % 2 == 0,
    ensures
        even_positions(b).len() == b.len() / 2,
        odd_positions(b).len() == b.len() / 2,
        interleave(even_positions(b), odd_positions(b)) == b,
{
    let x = even_positions(b);
    let y = odd_positions(b);
    assert forall|k: int| 0 <= k < b.len() implies #[trigger] interleave(x, y)[k] == b[k] by {
        if k % 2 == 0 {
            assert(2 * (k / 2) == k);
        } else {
            assert(2 * (k / 2) + 1 == k);
        }
    }
    assert(interleave(x, y) =~= b);
}

/// Writes a bit stream as text, one `'1'` or `'0'` per bit.
pub fn bit_to_string(data: &bit_vec::BitVec) -> (r: String)
    ensures
        r@ == Seq::new(bits_of(*data).len(), |k: int| bit_char(bits_of(*data)[k])),
{
    let ghost b = bits_of(*data);
    let n = bits_len(data);
    let mut out = String::new();
    let mut i: usize = 0;
    while i < n
        invariant
            n == b.len(),
            b == bits_of(*data),
            i <= n,
            out@ =~= Seq::new(i as nat, |k: int| bit_char(b[k])),
        decreases n - i,
    {
        let bit = match bits_get(data, i) {
            Some(x) => x,
            None => false,
        };
        proof {
            reveal_strlit("1");
            reveal_strlit("0");
        }
        if bit {
            out.append("1");
        } else {
            out.append("0");
        }
        i = i + 1;
    }
    out
}

} // verus!
