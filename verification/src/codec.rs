//! Little-endian byte layout of the values that cross the mailbox.
//!
//! Every integer written into the shared memory slot is a 32-bit
//! little-endian value, and text payloads are sequences of 16-bit code units,
//! each laid out low byte first.

use vstd::arithmetic::div_mod::{
    lemma_div_denominator, lemma_fundamental_div_mod, lemma_fundamental_div_mod_converse,
};
use vstd::prelude::*;

verus! {

/// The four little-endian bytes of a 32-bit value.
pub open spec fn u32_le(x: u32) -> Seq<u8> {
    seq![
        (x as int % 256) as u8,
        (x as int / 256 % 256) as u8,
        (x as int / 65536 % 256) as u8,
        (x as int / 16777216 % 256) as u8,
    ]
}

/// The two little-endian bytes of a 16-bit value.
pub open spec fn u16_le(x: u16) -> Seq<u8> {
    seq![(x as int % 256) as u8, (x as int / 256 % 256) as u8]
}

/// The 32-bit value read from four little-endian bytes.
pub open spec fn u32_from_le(b: Seq<u8>) -> u32
    recommends
        b.len() == 4,
{
    (b[0] + b[1] * 256 + b[2] * 65536 + b[3] * 16777216) as u32
}

/// The 16-bit value read from two little-endian bytes.
pub open spec fn u16_from_le(b: Seq<u8>) -> u16
    recommends
        b.len() == 2,
{
    (b[0] + b[1] * 256) as u16
}

/// Reading back the four little-endian bytes of a value recovers it.
pub proof fn lemma_u32_le_round_trip(x: u32)
    ensures
        u32_from_le(u32_le(x)) == x,
{
    let n = x as int;
    lemma_fundamental_div_mod(n, 256);
    lemma_div_denominator(n, 256, 256);
    lemma_fundamental_div_mod(n / 256, 256);
    lemma_div_denominator(n / 256, 256, 256);
    lemma_fundamental_div_mod(n / 65536, 256);
    lemma_div_denominator(n / 65536, 256, 256);
    assert(n / 16777216 < 256) by {
        lemma_fundamental_div_mod_converse(n, 16777216, n / 16777216, n % 16777216);
    }
}

/// Reading back the two little-endian bytes of a value recovers it.
pub proof fn lemma_u16_le_round_trip(x: u16)
    ensures
        u16_from_le(u16_le(x)) == x,
{
    let n = x as int;
    lemma_fundamental_div_mod(n, 256);
}

/// Appends the four little-endian bytes of `x` to `out`.
pub fn push_u32_le(out: &mut Vec<u8>, x: u32)
    ensures
        final(out)@ == old(out)@ + u32_le(x),
{
    out.push((x % 256) as u8);
    out.push((x / 256 % 256) as u8);
    out.push((x / 65536 % 256) as u8);
    out.push((x / 16777216 % 256) as u8);
    assert(out@ =~= old(out)@ + u32_le(x));
}

/// Appends the two little-endian bytes of `x` to `out`.
pub fn push_u16_le(out: &mut Vec<u8>, x: u16)
    ensures
        final(out)@ == old(out)@ + u16_le(x),
{
    out.push((x % 256) as u8);
    out.push((x / 256 % 256) as u8);
    assert(out@ =~= old(out)@ + u16_le(x));
}

/// The four big-endian bytes of a 32-bit value.
pub open spec fn u32_be(x: u32) -> Seq<u8> {
    seq![
        (x as int / 16777216 % 256) as u8,
        (x as int / 65536 % 256) as u8,
        (x as int / 256 % 256) as u8,
        (x as int % 256) as u8,
    ]
}

/// Appends the four big-endian bytes of `x` to `out`.
pub fn push_u32_be(out: &mut Vec<u8>, x: u32)
    ensures
        final(out)@ == old(out)@ + u32_be(x),
{
    out.push((x / 16777216 % 256) as u8);
    out.push((x / 65536 % 256) as u8);
    out.push((x / 256 % 256) as u8);
    out.push((x % 256) as u8);
    assert(out@ =~= old(out)@ + u32_be(x));
}

/// The two's-complement 32-bit image of a signed value.
pub open spec fn i32_bits(x: i32) -> u32 {
    if x >= 0 {
        x as u32
    } else {
        (x + 0x100000000) as u32
    }
}

/// The four little-endian bytes of a signed 32-bit value, two's complement.
pub open spec fn i32_le(x: i32) -> Seq<u8> {
    u32_le(i32_bits(x))
}

/// Appends the four little-endian bytes of a signed value to `out`.
pub fn push_i32_le(out: &mut Vec<u8>, x: i32)
    ensures
        final(out)@ == old(out)@ + i32_le(x),
{
    let bits: u32 = if x >= 0 {
        x as u32
    } else {
        ((x as i64) + 0x100000000) as u32
    };
    push_u32_le(out, bits);
}

/// Reads the 32-bit little-endian value at `pos`.
pub fn read_u32_le(b: &Vec<u8>, pos: usize) -> (r: u32)
    requires
        pos + 4 <= b@.len(),
    ensures
        r == u32_from_le(b@.subrange(pos as int, pos as int + 4)),
{
    let _n = b.len();
    let r = b[pos] as u32 + b[pos + 1] as u32 * 256 + b[pos + 2] as u32 * 65536 + b[pos + 3] as u32
        * 16777216;
    proof {
        let s = b@.subrange(pos as int, pos as int + 4);
        assert(b@[pos as int] == s[0] && b@[pos as int + 1] == s[1] && b@[pos as int + 2] == s[2]
            && b@[pos as int + 3] == s[3]);
    }
    r
}

/// The little-endian byte stream of a sequence of 16-bit code units.
pub open spec fn utf16_le_bytes(units: Seq<u16>) -> Seq<u8>
    decreases units.len(),
{
    if units.len() == 0 {
        Seq::empty()
    } else {
        u16_le(units[0]) + utf16_le_bytes(units.drop_first())
    }
}

/// The byte stream of a unit sequence is twice as long as the sequence.
pub proof fn lemma_utf16_le_bytes_len(units: Seq<u16>)
    ensures
        utf16_le_bytes(units).len() == 2 * units.len(),
    decreases units.len(),
{
    if units.len() > 0 {
        lemma_utf16_le_bytes_len(units.drop_first());
    }
}

/// The byte stream of a concatenation is the concatenation of the streams.
pub proof fn lemma_utf16_le_bytes_concat(a: Seq<u16>, b: Seq<u16>)
    ensures
        utf16_le_bytes(a + b) == utf16_le_bytes(a) + utf16_le_bytes(b),
    decreases a.len(),
{
    if a.len() == 0 {
        assert(a + b =~= b);
        assert(utf16_le_bytes(a) + utf16_le_bytes(b) =~= utf16_le_bytes(b));
    } else {
        assert((a + b).drop_first() =~= a.drop_first() + b);
        lemma_utf16_le_bytes_concat(a.drop_first(), b);
        assert(utf16_le_bytes(a + b) =~= utf16_le_bytes(a) + utf16_le_bytes(b));
    }
}

/// Appends the little-endian byte stream of `units` to `out`.
pub fn push_utf16_le_bytes(out: &mut Vec<u8>, units: &Vec<u16>)
    ensures
        final(out)@ == old(out)@ + utf16_le_bytes(units@),
{
    let n = units.len();
    let mut i: usize = 0;
    while i < n
        invariant
            n == units@.len(),
            i <= n,
            out@ == old(out)@ + utf16_le_bytes(units@.take(i as int)),
        decreases n - i,
    {
        push_u16_le(out, units[i]);
        proof {
            let t = units@.take(i as int);
            let single = seq![units@[i as int]];
            assert(units@.take(i + 1) =~= t + single);
            lemma_utf16_le_bytes_concat(t, single);
            assert(single.drop_first() =~= Seq::<u16>::empty());
            assert(utf16_le_bytes(Seq::<u16>::empty()) =~= Seq::<u8>::empty());
            assert(utf16_le_bytes(single) =~= u16_le(units@[i as int]));
        }
        i = i + 1;
    }
    assert(units@.take(n as int) =~= units@);
}

/// The unit sequence read back from a little-endian byte stream.
pub open spec fn units_from_le_bytes(b: Seq<u8>) -> Seq<u16>
    recommends
        b.len() % 2 == 0,
    decreases b.len(),
{
    if b.len() < 2 {
        Seq::empty()
    } else {
        seq![u16_from_le(b.take(2))] + units_from_le_bytes(b.skip(2))
    }
}

/// Decoding the byte stream of a unit sequence recovers the sequence.
pub proof fn lemma_units_round_trip(units: Seq<u16>)
    ensures
        units_from_le_bytes(utf16_le_bytes(units)) == units,
    decreases units.len(),
{
    if units.len() == 0 {
        assert(units_from_le_bytes(utf16_le_bytes(units)) =~= units);
    } else {
        let b = utf16_le_bytes(units);
        lemma_utf16_le_bytes_len(units.drop_first());
        assert(b.take(2) =~= u16_le(units[0]));
        assert(b.skip(2) =~= utf16_le_bytes(units.drop_first()));
        lemma_u16_le_round_trip(units[0]);
        lemma_units_round_trip(units.drop_first());
        assert(units_from_le_bytes(b) =~= units);
    }
}

/// Reads the unit sequence laid out at `pos`, `count` units long.
pub fn read_units_le(b: &Vec<u8>, pos: usize, count: usize) -> (r: Vec<u16>)
    requires
        pos + 2 * count <= b@.len(),
    ensures
        r@ == units_from_le_bytes(b@.subrange(pos as int, pos as int + 2 * count)),
        r@.len() == count,
{
    let n = b.len();
    let mut r: Vec<u16> = Vec::new();
    let mut i: usize = 0;
    while i < count
        invariant
            n == b@.len(),
            pos + 2 * count <= n,
            i <= count,
            r@ == units_from_le_bytes(b@.subrange(pos as int, pos as int + 2 * i)),
            r@.len() == i,
        decreases count - i,
    {
        let lo = b[pos + 2 * i];
        let hi = b[pos + 2 * i + 1];
        let unit = lo as u16 + hi as u16 * 256;
        r.push(unit);
        proof {
            let whole = b@.subrange(pos as int, pos as int + 2 * (i + 1));
            let prev = b@.subrange(pos as int, pos as int + 2 * i);
            assert(prev =~= whole.take(prev.len() as int));
            assert(whole.skip(prev.len() as int) =~= seq![b@[pos + 2 * i], b@[pos + 2 * i + 1]]);
            assert(unit == u16_from_le(whole.skip(prev.len() as int)));
            lemma_units_prefix_step(whole, prev, unit);
        }
        i = i + 1;
    }
    r
}

/// One decoding step: a stream extended by the two bytes of `unit` decodes to
/// the old units followed by `unit`.
proof fn lemma_units_prefix_step(whole: Seq<u8>, prev: Seq<u8>, unit: u16)
    requires
        whole.len() == prev.len() + 2,
        prev == whole.take(prev.len() as int),
        prev.len() % 2 == 0,
        unit == u16_from_le(whole.skip(prev.len() as int)),
    ensures
        units_from_le_bytes(whole) == units_from_le_bytes(prev) + seq![unit],
    decreases prev.len(),
{
    if prev.len() == 0 {
        assert(whole.take(2) =~= whole.skip(0));
        assert(units_from_le_bytes(whole.skip(2)) =~= Seq::<u16>::empty());
        assert(units_from_le_bytes(prev) =~= Seq::<u16>::empty());
        assert(units_from_le_bytes(whole) =~= units_from_le_bytes(prev) + seq![unit]);
    } else {
        assert(whole.take(2) =~= prev.take(2));
        assert(prev.skip(2) =~= whole.skip(2).take(prev.len() - 2));
        assert(whole.skip(2).skip(prev.len() - 2) =~= whole.skip(prev.len() as int));
        lemma_units_prefix_step(whole.skip(2), prev.skip(2), unit);
        assert(units_from_le_bytes(whole) == seq![u16_from_le(whole.take(2))]
            + units_from_le_bytes(whole.skip(2)));
        assert(units_from_le_bytes(prev) == seq![u16_from_le(prev.take(2))]
            + units_from_le_bytes(prev.skip(2)));
        assert(units_from_le_bytes(whole) =~= units_from_le_bytes(prev) + seq![unit]);
    }
}

} // verus!
