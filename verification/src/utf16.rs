//! UTF-16 encoding of text payloads.
//!
//! The game reads every text message as UTF-16LE, so each string handed over
//! is first turned into its sequence of 16-bit code units: one unit for a
//! scalar below `0x10000`, a surrogate pair for anything above.

use crate::codec::u16_le;
use vstd::arithmetic::div_mod::lemma_fundamental_div_mod;
use vstd::prelude::*;
use vstd::string::StrSliceExecFns;
use vstd::utf8::{char_is_scalar, char_u32_cast};

verus! {

/// The UTF-16 code units of one character.
pub open spec fn utf16_units_of_char(c: char) -> Seq<u16> {
    let v = c as u32;
    if v < 0x10000 {
        seq![v as u16]
    } else {
        seq![(0xD800 + (v - 0x10000) / 0x400) as u16, (0xDC00 + (v - 0x10000) % 0x400) as u16]
    }
}

/// The UTF-16 code units of a string, character by character.
pub open spec fn utf16_units(s: Seq<char>) -> Seq<u16>
    decreases s.len(),
{
    if s.len() == 0 {
        Seq::empty()
    } else {
        utf16_units_of_char(s[0]) + utf16_units(s.drop_first())
    }
}

/// A string of n characters needs at most 2n code units.
pub proof fn lemma_utf16_units_len(s: Seq<char>)
    ensures
        s.len() <= utf16_units(s).len() <= 2 * s.len(),
    decreases s.len(),
{
    if s.len() > 0 {
        lemma_utf16_units_len(s.drop_first());
    }
}

/// The code units of a concatenation are the concatenated code units.
pub proof fn lemma_utf16_units_concat(a: Seq<char>, b: Seq<char>)
    ensures
        utf16_units(a + b) == utf16_units(a) + utf16_units(b),
    decreases a.len(),
{
    if a.len() == 0 {
        assert(a + b =~= b);
        assert(utf16_units(a) + utf16_units(b) =~= utf16_units(b));
    } else {
        assert((a + b).drop_first() =~= a.drop_first() + b);
        lemma_utf16_units_concat(a.drop_first(), b);
        assert(utf16_units(a + b) =~= utf16_units(a) + utf16_units(b));
    }
}

/// The string a sequence of UTF-16 code units decodes to: a unit outside
/// the surrogate range is one character, a high surrogate followed by a low
/// surrogate is one character above `0xFFFF`, anything else is ill-formed.
pub open spec fn chars_from_utf16(units: Seq<u16>) -> Option<Seq<char>>
    decreases units.len(),
{
    if units.len() == 0 {
        Some(Seq::<char>::empty())
    } else if units[0] < 0xD800 || units[0] >= 0xE000 {
        match chars_from_utf16(units.drop_first()) {
            Some(rest) => Some(seq![(units[0] as u32) as char] + rest),
            None => None,
        }
    } else if units[0] < 0xDC00 && units.len() >= 2 && 0xDC00 <= units[1] < 0xE000 {
        let v = (0x10000 + (units[0] - 0xD800) * 0x400 + (units[1] - 0xDC00)) as u32;
        match chars_from_utf16(units.skip(2)) {
            Some(rest) => Some(seq![v as char] + rest),
            None => None,
        }
    } else {
        None
    }
}

/// Round trip: the code units of a string decode back to that string.
pub proof fn lemma_utf16_round_trip(s: Seq<char>)
    ensures
        chars_from_utf16(utf16_units(s)) == Some(s),
    decreases s.len(),
{
    if s.len() == 0 {
        assert(chars_from_utf16(utf16_units(s)) =~= Some(Seq::<char>::empty()));
        assert(s =~= Seq::<char>::empty());
    } else {
        let c = s[0];
        let v = c as u32;
        char_is_scalar(c);
        char_u32_cast(c, v);
        lemma_utf16_round_trip(s.drop_first());
        let units = utf16_units(s);
        let head = utf16_units_of_char(c);
        let rest = utf16_units(s.drop_first());
        if v < 0x10000 {
            assert(units[0] == v as u16);
            assert(units[0] < 0xD800 || units[0] >= 0xE000);
            assert(units.drop_first() =~= rest);
            assert((units[0] as u32) == v);
            assert(seq![(units[0] as u32) as char] + s.drop_first() =~= s);
        } else {
            let off = v - 0x10000;
            assert(0 <= off <= 0xFFFFF);
            lemma_fundamental_div_mod(off as int, 0x400);
            assert(off / 0x400 <= 0x3FF) by (nonlinear_arith)
                requires
                    0 <= off <= 0xFFFFF,
            ;
            let hi = (0xD800 + off / 0x400) as u16;
            let lo = (0xDC00 + off % 0x400) as u16;
            assert(units[0] == hi && units[1] == lo);
            assert(0xD800 <= hi < 0xDC00 && 0xDC00 <= lo < 0xE000);
            assert((0x10000 + (hi - 0xD800) * 0x400 + (lo - 0xDC00)) as u32 == v);
            assert(units.skip(2) =~= rest);
            assert(seq![v as char] + s.drop_first() =~= s);
        }
    }
}

/// Encodes a string as its UTF-16 code units.
pub fn utf16_units_of_str(s: &str) -> (r: Vec<u16>)
    ensures
        r@ == utf16_units(s@),
{
    let n = s.unicode_len();
    let mut r: Vec<u16> = Vec::new();
    let mut i: usize = 0;
    while i < n
        invariant
            n == s@.len(),
            i <= n,
            r@ == utf16_units(s@.take(i as int)),
        decreases n - i,
    {
        let c = s.get_char(i);
        proof {
            char_is_scalar(c);
        }
        let v = c as u32;
        if v < 0x10000 {
            r.push(v as u16);
        } else {
            let offset = v - 0x10000;
            r.push(0xD800 + (offset / 0x400) as u16);
            r.push(0xDC00 + (offset % 0x400) as u16);
        }
        proof {
            let t = s@.take(i as int);
            let single = seq![s@[i as int]];
            assert(s@.take(i + 1) =~= t + single);
            lemma_utf16_units_concat(t, single);
            assert(single.drop_first() =~= Seq::<char>::empty());
            assert(utf16_units(Seq::<char>::empty()) =~= Seq::<u16>::empty());
            assert(utf16_units(single) =~= utf16_units_of_char(s@[i as int]));
            assert(r@ =~= utf16_units(s@.take(i + 1)));
        }
        i = i + 1;
    }
    assert(s@.take(n as int) =~= s@);
    r
}

} // verus!
