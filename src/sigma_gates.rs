//! The sigma gates. Each rotation or shift of a sigma is laid out as a linear
//! combination of the spread pieces of its word, the three are added, and the
//! sum must equal the looked-up outputs `spread(even) + 2 * spread(odd)` of
//! both halves. A gate that holds fixes the even outputs to the bitwise sigma,
//! and the outputs read from the spread sums always make it hold.
use vstd::prelude::*;
use crate::bits::{
    even_bits_spec, hi32, join32, lemma_spread64_halves, lemma_spread_pair, lemma_spread_split,
    lemma_spread_xor3_maj, lo32, odd_bits_spec, spread64_spec, spread_spec, spread_word,
    spread_word64,
};
use crate::compression::{AbcdVar, EfghVar};
use crate::gates::{lemma_join_xor3_maj, spread_sum3, SpreadOutputs};
use crate::reference::{big_sigma_0, big_sigma_1, rotr, small_sigma_0, small_sigma_1};
use crate::schedule::{Subregion1Word, Subregion2Word, Subregion3Word};

verus! {

/// The 128-bit value that gate outputs stand for:
/// `spread(R0_even) + 2 spread(R0_odd) + 2^64 (spread(R1_even) + 2 spread(R1_odd))`.
pub open spec fn outputs_value(o: SpreadOutputs) -> int {
    spread_spec(o.even_lo) as int + 2 * spread_spec(o.odd_lo) as int + 0x1_0000_0000_0000_0000 * (
    spread_spec(o.even_hi) as int + 2 * spread_spec(o.odd_hi) as int)
}

/// The sum of the spread forms of three words.
pub open spec fn xor_spread(x: u64, y: u64, z: u64) -> int {
    spread64_spec(x) as int + spread64_spec(y) as int + spread64_spec(z) as int
}

/// The outputs read from the spread sums of three words.
pub open spec fn outputs_of(x: u64, y: u64, z: u64) -> SpreadOutputs {
    let (r_0, r_1) = spread_sum3(x, y, z);
    SpreadOutputs {
        even_lo: even_bits_spec(r_0),
        odd_lo: odd_bits_spec(r_0),
        even_hi: even_bits_spec(r_1),
        odd_hi: odd_bits_spec(r_1),
    }
}

/// A spread-sum gate that holds fixes its even outputs to the XOR of the
/// three words and its odd outputs to their majority.
pub proof fn lemma_sigma_gate_sound(x: u64, y: u64, z: u64, o: SpreadOutputs)
    requires
        xor_spread(x, y, z) == outputs_value(o),
    ensures
        join32(o.even_lo, o.even_hi) == x ^ y ^ z,
        join32(o.odd_lo, o.odd_hi) == crate::reference::maj(x, y, z),
{
    lemma_spread64_halves(x);
    lemma_spread64_halves(y);
    lemma_spread64_halves(z);
    lemma_spread_xor3_maj(lo32(x), lo32(y), lo32(z));
    lemma_spread_xor3_maj(hi32(x), hi32(y), hi32(z));
    lemma_spread_pair(o.even_lo, o.odd_lo);
    lemma_spread_pair(o.even_hi, o.odd_hi);
    lemma_join_xor3_maj(x, y, z);
    let m = 0x1_0000_0000_0000_0000int;
    let r0 = spread_spec(lo32(x)) as int + spread_spec(lo32(y)) as int
        + spread_spec(lo32(z)) as int;
    let r1 = spread_spec(hi32(x)) as int + spread_spec(hi32(y)) as int
        + spread_spec(hi32(z)) as int;
    let s0 = spread_spec(o.even_lo) as int + 2 * spread_spec(o.odd_lo) as int;
    let s1 = spread_spec(o.even_hi) as int + 2 * spread_spec(o.odd_hi) as int;
    assert(r0 + m * r1 == s0 + m * s1);
    assert(r0 == s0 && r1 == s1) by (nonlinear_arith)
        requires
            r0 + m * r1 == s0 + m * s1,
            0 <= r0 < m,
            0 <= s0 < m,
            0 <= r1,
            0 <= s1,
            m == 0x1_0000_0000_0000_0000int,
    ;
}

/// The outputs read from the spread sums make the spread-sum gate hold.
pub proof fn lemma_sigma_gate_complete(x: u64, y: u64, z: u64)
    ensures
        xor_spread(x, y, z) == outputs_value(outputs_of(x, y, z)),
{
    lemma_spread64_halves(x);
    lemma_spread64_halves(y);
    lemma_spread64_halves(z);
    lemma_spread_xor3_maj(lo32(x), lo32(y), lo32(z));
    lemma_spread_xor3_maj(hi32(x), hi32(y), hi32(z));
    let (r_0, r_1) = spread_sum3(x, y, z);
    lemma_spread_split(r_0);
    lemma_spread_split(r_1);
}

/// The right-hand side of a sigma gate, from its outputs.
fn outputs_sum(o: &SpreadOutputs) -> (r: u128)
    ensures
        r as int == outputs_value(*o),
{
    proof {
        lemma_spread_pair(o.even_lo, o.odd_lo);
        lemma_spread_pair(o.even_hi, o.odd_hi);
    }
    let lo = spread_word(o.even_lo) as u128 + 2 * (spread_word(o.odd_lo) as u128);
    let hi = spread_word(o.even_hi) as u128 + 2 * (spread_word(o.odd_hi) as u128);
    lo + 0x1_0000_0000_0000_0000u128 * hi
}

/// Adds three spread words, each a spread form.
fn add_spreads(a: u128, b: u128, c: u128, Ghost(x): Ghost<u64>, Ghost(y): Ghost<u64>,
    Ghost(z): Ghost<u64>) -> (r: u128)
    requires
        a == spread64_spec(x),
        b == spread64_spec(y),
        c == spread64_spec(z),
    ensures
        r as int == xor_spread(x, y, z),
{
    proof {
        lemma_spread64_halves(x);
        lemma_spread64_halves(y);
        lemma_spread64_halves(z);
    }
    a + b + c
}

/// The upper-sigma-0 gate on the pieces of A: `ROTR 28`, `ROTR 34` and
/// `ROTR 39` as combinations of the pieces' spread forms.
pub fn s_upper_sigma_0(p: &AbcdVar, o: &SpreadOutputs) -> (r: bool)
    requires
        p.wf(),
    ensures
        r == (xor_spread(rotr(p.value(), 28), rotr(p.value(), 34), rotr(p.value(), 39))
            == outputs_value(*o)),
        r ==> join32(o.even_lo, o.even_hi) == big_sigma_0(p.value()),
        *o == outputs_of(rotr(p.value(), 28), rotr(p.value(), 34), rotr(p.value(), 39)) ==> r,
{
    let (al, ah, bl, bh) = (p.a_lo, p.a_hi, p.b_lo, p.b_hi);
    let (cl, ch, dl, dh) = (p.c_lo, p.c_hi, p.d_lo, p.d_hi);
    let sa = spread_word64(al) | (spread_word64(ah) << 28u128);
    let sb = spread_word64(bl) | (spread_word64(bh) << 6u128);
    let sc = spread_word64(cl) | (spread_word64(ch) << 4u128);
    let sd = spread_word64(dl) | (spread_word64(dh) << 28u128);
    let xor_0 = sb | (sc << 12u128) | (sd << 22u128) | (sa << 72u128);
    let xor_1 = sc | (sd << 10u128) | (sa << 60u128) | (sb << 116u128);
    let xor_2 = sd | (sa << 50u128) | (sb << 106u128) | (sc << 118u128);
    let ghost v = p.value();
    assert(xor_0 == spread64_spec(rotr(v, 28)) && xor_1 == spread64_spec(rotr(v, 34)) && xor_2
        == spread64_spec(rotr(v, 39))) by (bit_vector)
        requires
            al < 0x4000 && ah < 0x4000 && bl < 8 && bh < 8 && cl < 4 && ch < 8 && dl < 0x4000
                && dh < 0x800,
            v == al | (ah << 14u64) | (bl << 28u64) | (bh << 31u64) | (cl << 34u64) | (ch
                << 36u64) | (dl << 39u64) | (dh << 53u64),
            sa == spread64_spec(al) | (spread64_spec(ah) << 28u128),
            sb == spread64_spec(bl) | (spread64_spec(bh) << 6u128),
            sc == spread64_spec(cl) | (spread64_spec(ch) << 4u128),
            sd == spread64_spec(dl) | (spread64_spec(dh) << 28u128),
            xor_0 == sb | (sc << 12u128) | (sd << 22u128) | (sa << 72u128),
            xor_1 == sc | (sd << 10u128) | (sa << 60u128) | (sb << 116u128),
            xor_2 == sd | (sa << 50u128) | (sb << 106u128) | (sc << 118u128),
    ;
    let lhs = add_spreads(xor_0, xor_1, xor_2, Ghost(rotr(v, 28)), Ghost(rotr(v, 34)),
        Ghost(rotr(v, 39)));
    let rhs = outputs_sum(o);
    proof {
        if lhs == rhs {
            lemma_sigma_gate_sound(rotr(v, 28), rotr(v, 34), rotr(v, 39), *o);
        }
        lemma_sigma_gate_complete(rotr(v, 28), rotr(v, 34), rotr(v, 39));
    }
    lhs == rhs
}

/// The upper-sigma-1 gate on the pieces of E: `ROTR 14`, `ROTR 18` and
/// `ROTR 41` as combinations of the pieces' spread forms.
pub fn s_upper_sigma_1(p: &EfghVar, o: &SpreadOutputs) -> (r: bool)
    requires
        p.wf(),
    ensures
        r == (xor_spread(rotr(p.value(), 14), rotr(p.value(), 18), rotr(p.value(),
            41)) == outputs_value(*o)),
        r ==> join32(o.even_lo, o.even_hi) == big_sigma_1(p.value()),
        *o == outputs_of(rotr(p.value(), 14), rotr(p.value(), 18), rotr(p.value(), 41)) ==> r,
{
    let (a, bl, bh, cl) = (p.a, p.b_lo, p.b_hi, p.c_lo);
    let (ch, dl, dh) = (p.c_hi, p.d_lo, p.d_hi);
    let sa = spread_word64(a);
    let sb = spread_word64(bl) | (spread_word64(bh) << 4u128);
    let sc = spread_word64(cl) | (spread_word64(ch) << 26u128);
    let sd = spread_word64(dl) | (spread_word64(dh) << 26u128);
    let xor_0 = sb | (sc << 8u128) | (sd << 54u128) | (sa << 100u128);
    let xor_1 = sc | (sd << 46u128) | (sa << 92u128) | (sb << 120u128);
    let xor_2 = sd | (sa << 46u128) | (sb << 74u128) | (sc << 82u128);
    let ghost v = p.value();
    assert(xor_0 == spread64_spec(rotr(v, 14)) && xor_1 == spread64_spec(rotr(v, 18))
        && xor_2 == spread64_spec(rotr(v, 41))) by (bit_vector)
        requires
            a < 0x4000 && bl < 4 && bh < 4 && cl < 0x2000 && ch < 0x400 && dl < 0x2000
                && dh < 0x400,
            v == a | (bl << 14u64) | (bh << 16u64) | (cl << 18u64) | (ch << 31u64)
                | (dl << 41u64) | (dh << 54u64),
            sa == spread64_spec(a),
            sb == spread64_spec(bl) | (spread64_spec(bh) << 4u128),
            sc == spread64_spec(cl) | (spread64_spec(ch) << 26u128),
            sd == spread64_spec(dl) | (spread64_spec(dh) << 26u128),
            xor_0 == sb | (sc << 8u128) | (sd << 54u128) | (sa << 100u128),
            xor_1 == sc | (sd << 46u128) | (sa << 92u128) | (sb << 120u128),
            xor_2 == sd | (sa << 46u128) | (sb << 74u128) | (sc << 82u128),
    ;
    let lhs = add_spreads(xor_0, xor_1, xor_2, Ghost(rotr(v, 14)), Ghost(rotr(v, 18)),
        Ghost(rotr(v, 41)));
    let rhs = outputs_sum(o);
    proof {
        if lhs == rhs {
            lemma_sigma_gate_sound(rotr(v, 14), rotr(v, 18), rotr(v, 41), *o);
        }
        lemma_sigma_gate_complete(rotr(v, 14), rotr(v, 18), rotr(v, 41));
    }
    lhs == rhs
}

/// The lower-sigma-0 gate on a word of subregion 1: `SHR 7`, `ROTR 1` and
/// `ROTR 8` as combinations of the chunks' spread forms.
pub fn s_lower_sigma_0(p: &Subregion1Word, o: &SpreadOutputs) -> (r: bool)
    requires
        p.wf(),
    ensures
        r == (xor_spread(rotr(p.value(), 1), rotr(p.value(), 8),
            (p.value() >> 7u64)) == outputs_value(*o)),
        r ==> join32(o.even_lo, o.even_hi) == small_sigma_0(p.value()),
        *o == outputs_of(rotr(p.value(), 1), rotr(p.value(), 8), (p.value() >> 7u64)) ==> r,
{
    let (a, b, c, dll) = (p.a, p.b, p.c, p.d_lo_lo);
    let (dlh, dhl, dhh) = (p.d_lo_hi, p.d_hi_lo, p.d_hi_hi);
    let sa = spread_word64(a);
    let sb = spread_word64(b);
    let sc = spread_word64(c);
    let sd = spread_word64(dll) | (spread_word64(dlh) << 28u128)
        | (spread_word64(dhl) << 56u128) | (spread_word64(dhh) << 84u128);
    let xor_0 = sb | (sc << 12u128) | (sd << 14u128) | (sa << 126u128);
    let xor_1 = sd | (sa << 112u128) | (sb << 114u128) | (sc << 126u128);
    let xor_2 = sc | (sd << 2u128);
    let ghost v = p.value();
    assert(xor_0 == spread64_spec(rotr(v, 1)) && xor_1 == spread64_spec(rotr(v, 8))
        && xor_2 == spread64_spec((v >> 7u64))) by (bit_vector)
        requires
            a < 2 && b < 64 && c < 2 && dll < 0x4000 && dlh < 0x4000 && dhl < 0x4000
                && dhh < 0x4000,
            v == a | (b << 1u64) | (c << 7u64) | (dll << 8u64) | (dlh << 22u64)
                | (dhl << 36u64) | (dhh << 50u64),
            sa == spread64_spec(a),
            sb == spread64_spec(b),
            sc == spread64_spec(c),
            sd == spread64_spec(dll) | (spread64_spec(dlh) << 28u128)
                | (spread64_spec(dhl) << 56u128) | (spread64_spec(dhh) << 84u128),
            xor_0 == sb | (sc << 12u128) | (sd << 14u128) | (sa << 126u128),
            xor_1 == sd | (sa << 112u128) | (sb << 114u128) | (sc << 126u128),
            xor_2 == sc | (sd << 2u128),
    ;
    let lhs = add_spreads(xor_0, xor_1, xor_2, Ghost(rotr(v, 1)), Ghost(rotr(v, 8)),
        Ghost((v >> 7u64)));
    let rhs = outputs_sum(o);
    proof {
        if lhs == rhs {
            lemma_sigma_gate_sound(rotr(v, 1), rotr(v, 8), (v >> 7u64), *o);
        }
        lemma_sigma_gate_complete(rotr(v, 1), rotr(v, 8), (v >> 7u64));
    }
    lhs == rhs
}

/// The lower-sigma-0 gate on a word of subregion 2: `SHR 7`, `ROTR 1` and
/// `ROTR 8` as combinations of the chunks' spread forms.
pub fn s_lower_sigma_0_v2(p: &Subregion2Word, o: &SpreadOutputs) -> (r: bool)
    requires
        p.wf(),
    ensures
        r == (xor_spread(rotr(p.value(), 1), rotr(p.value(), 8),
            (p.value() >> 7u64)) == outputs_value(*o)),
        r ==> join32(o.even_lo, o.even_hi) == small_sigma_0(p.value()),
        *o == outputs_of(rotr(p.value(), 1), rotr(p.value(), 8), (p.value() >> 7u64)) ==> r,
{
    let (a, b, c, d) = (p.a, p.b, p.c, p.d);
    let (e, fl, fm, fh) = (p.e, p.f_lo, p.f_mid, p.f_hi);
    let g = p.g;
    let sa = spread_word64(a);
    let sb = spread_word64(b);
    let sc = spread_word64(c);
    let sd = spread_word64(d);
    let se = spread_word64(e);
    let sf = spread_word64(fl) | (spread_word64(fm) << 28u128) | (spread_word64(fh) << 56u128);
    let sg = spread_word64(g);
    let xor_0 = sb | (sc << 10u128) | (sd << 12u128) | (se << 14u128) | (sf << 36u128)
        | (sg << 120u128) | (sa << 126u128);
    let xor_1 = se | (sf << 22u128) | (sg << 106u128) | (sa << 112u128) | (sb << 114u128)
        | (sc << 124u128) | (sd << 126u128);
    let xor_2 = sd | (se << 2u128) | (sf << 24u128) | (sg << 108u128);
    let ghost v = p.value();
    assert(xor_0 == spread64_spec(rotr(v, 1)) && xor_1 == spread64_spec(rotr(v, 8))
        && xor_2 == spread64_spec((v >> 7u64))) by (bit_vector)
        requires
            a < 2 && b < 32 && c < 2 && d < 2 && e < 0x800 && fl < 0x4000 && fm < 0x4000
                && fh < 0x4000 && g < 8,
            v == a | (b << 1u64) | (c << 6u64) | (d << 7u64) | (e << 8u64) | (fl << 19u64)
                | (fm << 33u64) | (fh << 47u64) | (g << 61u64),
            sa == spread64_spec(a),
            sb == spread64_spec(b),
            sc == spread64_spec(c),
            sd == spread64_spec(d),
            se == spread64_spec(e),
            sf == spread64_spec(fl) | (spread64_spec(fm) << 28u128) | (spread64_spec(fh) << 56u128),
            sg == spread64_spec(g),
            xor_0 == sb | (sc << 10u128) | (sd << 12u128) | (se << 14u128) | (sf << 36u128)
                | (sg << 120u128) | (sa << 126u128),
            xor_1 == se | (sf << 22u128) | (sg << 106u128) | (sa << 112u128) | (sb << 114u128)
                | (sc << 124u128) | (sd << 126u128),
            xor_2 == sd | (se << 2u128) | (sf << 24u128) | (sg << 108u128),
    ;
    let lhs = add_spreads(xor_0, xor_1, xor_2, Ghost(rotr(v, 1)), Ghost(rotr(v, 8)),
        Ghost((v >> 7u64)));
    let rhs = outputs_sum(o);
    proof {
        if lhs == rhs {
            lemma_sigma_gate_sound(rotr(v, 1), rotr(v, 8), (v >> 7u64), *o);
        }
        lemma_sigma_gate_complete(rotr(v, 1), rotr(v, 8), (v >> 7u64));
    }
    lhs == rhs
}

/// The lower-sigma-1 gate on a word of subregion 2: `SHR 6`, `ROTR 19` and
/// `ROTR 61` as combinations of the chunks' spread forms.
pub fn s_lower_sigma_1_v2(p: &Subregion2Word, o: &SpreadOutputs) -> (r: bool)
    requires
        p.wf(),
    ensures
        r == (xor_spread(rotr(p.value(), 19), rotr(p.value(), 61),
            (p.value() >> 6u64)) == outputs_value(*o)),
        r ==> join32(o.even_lo, o.even_hi) == small_sigma_1(p.value()),
        *o == outputs_of(rotr(p.value(), 19), rotr(p.value(), 61), (p.value() >> 6u64)) ==> r,
{
    let (a, b, c, d) = (p.a, p.b, p.c, p.d);
    let (e, fl, fm, fh) = (p.e, p.f_lo, p.f_mid, p.f_hi);
    let g = p.g;
    let sa = spread_word64(a);
    let sb = spread_word64(b);
    let sc = spread_word64(c);
    let sd = spread_word64(d);
    let se = spread_word64(e);
    let sf = spread_word64(fl) | (spread_word64(fm) << 28u128) | (spread_word64(fh) << 56u128);
    let sg = spread_word64(g);
    let xor_0 = sf | (sg << 84u128) | (sa << 90u128) | (sb << 92u128) | (sc << 102u128)
        | (sd << 104u128) | (se << 106u128);
    let xor_1 = sg | (sa << 6u128) | (sb << 8u128) | (sc << 18u128) | (sd << 20u128)
        | (se << 22u128) | (sf << 44u128);
    let xor_2 = sc | (sd << 2u128) | (se << 4u128) | (sf << 26u128) | (sg << 110u128);
    let ghost v = p.value();
    assert(xor_0 == spread64_spec(rotr(v, 19)) && xor_1 == spread64_spec(rotr(v, 61))
        && xor_2 == spread64_spec((v >> 6u64))) by (bit_vector)
        requires
            a < 2 && b < 32 && c < 2 && d < 2 && e < 0x800 && fl < 0x4000 && fm < 0x4000
                && fh < 0x4000 && g < 8,
            v == a | (b << 1u64) | (c << 6u64) | (d << 7u64) | (e << 8u64) | (fl << 19u64)
                | (fm << 33u64) | (fh << 47u64) | (g << 61u64),
            sa == spread64_spec(a),
            sb == spread64_spec(b),
            sc == spread64_spec(c),
            sd == spread64_spec(d),
            se == spread64_spec(e),
            sf == spread64_spec(fl) | (spread64_spec(fm) << 28u128) | (spread64_spec(fh) << 56u128),
            sg == spread64_spec(g),
            xor_0 == sf | (sg << 84u128) | (sa << 90u128) | (sb << 92u128) | (sc << 102u128)
                | (sd << 104u128) | (se << 106u128),
            xor_1 == sg | (sa << 6u128) | (sb << 8u128) | (sc << 18u128) | (sd << 20u128)
                | (se << 22u128) | (sf << 44u128),
            xor_2 == sc | (sd << 2u128) | (se << 4u128) | (sf << 26u128) | (sg << 110u128),
    ;
    let lhs = add_spreads(xor_0, xor_1, xor_2, Ghost(rotr(v, 19)), Ghost(rotr(v, 61)),
        Ghost((v >> 6u64)));
    let rhs = outputs_sum(o);
    proof {
        if lhs == rhs {
            lemma_sigma_gate_sound(rotr(v, 19), rotr(v, 61), (v >> 6u64), *o);
        }
        lemma_sigma_gate_complete(rotr(v, 19), rotr(v, 61), (v >> 6u64));
    }
    lhs == rhs
}

/// The lower-sigma-1 gate on a word of subregion 3: `SHR 6`, `ROTR 19` and
/// `ROTR 61` as combinations of the chunks' spread forms.
pub fn s_lower_sigma_1(p: &Subregion3Word, o: &SpreadOutputs) -> (r: bool)
    requires
        p.wf(),
    ensures
        r == (xor_spread(rotr(p.value(), 19), rotr(p.value(), 61),
            (p.value() >> 6u64)) == outputs_value(*o)),
        r ==> join32(o.even_lo, o.even_hi) == small_sigma_1(p.value()),
        *o == outputs_of(rotr(p.value(), 19), rotr(p.value(), 61), (p.value() >> 6u64)) ==> r,
{
    let (a, b, cll, clh) = (p.a, p.b, p.c_lo_lo, p.c_lo_hi);
    let (chl, chh, d) = (p.c_hi_lo, p.c_hi_hi, p.d);
    let sa = spread_word64(a);
    let sb = spread_word64(b);
    let sc = spread_word64(cll) | (spread_word64(clh) << 22u128)
        | (spread_word64(chl) << 42u128) | (spread_word64(chh) << 64u128);
    let sd = spread_word64(d);
    let xor_0 = sc | (sd << 84u128) | (sa << 90u128) | (sb << 102u128);
    let xor_1 = sd | (sa << 6u128) | (sb << 18u128) | (sc << 44u128);
    let xor_2 = sb | (sc << 26u128) | (sd << 110u128);
    let ghost v = p.value();
    assert(xor_0 == spread64_spec(rotr(v, 19)) && xor_1 == spread64_spec(rotr(v, 61))
        && xor_2 == spread64_spec((v >> 6u64))) by (bit_vector)
        requires
            a < 64 && b < 0x2000 && cll < 0x800 && clh < 0x400 && chl < 0x800 && chh < 0x400
                && d < 8,
            v == a | (b << 6u64) | (cll << 19u64) | (clh << 30u64) | (chl << 40u64)
                | (chh << 51u64) | (d << 61u64),
            sa == spread64_spec(a),
            sb == spread64_spec(b),
            sc == spread64_spec(cll) | (spread64_spec(clh) << 22u128)
                | (spread64_spec(chl) << 42u128) | (spread64_spec(chh) << 64u128),
            sd == spread64_spec(d),
            xor_0 == sc | (sd << 84u128) | (sa << 90u128) | (sb << 102u128),
            xor_1 == sd | (sa << 6u128) | (sb << 18u128) | (sc << 44u128),
            xor_2 == sb | (sc << 26u128) | (sd << 110u128),
    ;
    let lhs = add_spreads(xor_0, xor_1, xor_2, Ghost(rotr(v, 19)), Ghost(rotr(v, 61)),
        Ghost((v >> 6u64)));
    let rhs = outputs_sum(o);
    proof {
        if lhs == rhs {
            lemma_sigma_gate_sound(rotr(v, 19), rotr(v, 61), (v >> 6u64), *o);
        }
        lemma_sigma_gate_complete(rotr(v, 19), rotr(v, 61), (v >> 6u64));
    }
    lhs == rhs
}

} // verus!
