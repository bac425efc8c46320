//! Checks of the custom gates on witness values. Each check says whether the
//! gate's constraints are met. Field elements exceed 2^128, and every value
//! here is smaller, so a constraint met over the integers is met in the field.
use vstd::prelude::*;
use crate::bits::{
    even_bits_spec, hi32, join32, lemma_halves_of_join, lemma_spread64_halves,
    lemma_spread_split, lo32, odd_bits_spec, pair_value, pairs_sum, spread64_spec, spread_spec,
    spread_word, spread_word64, sum_with_carry,
};
use crate::gates::SpreadOutputs;
use crate::compression::{AbcdVar, EfghVar};
use crate::schedule::{Subregion1Word, Subregion2Word, Subregion3Word};

verus! {

/// The range gate `(x - lower)(x - lower - 1)...(x - upper) = 0`: `x` lies in
/// `lower..=upper`.
pub fn range_check(value: u64, lower: u64, upper: u64) -> (r: bool)
    ensures
        r == (lower <= value && value <= upper),
{
    lower <= value && value <= upper
}

/// The spread-and-range gate of a short piece of `width` bits (2 or 3): the
/// dense value fits the width and the spread value is its spread form.
pub fn spread_and_range(dense: u64, spread: u64, width: u64) -> (r: bool)
    requires
        width <= 3,
    ensures
        r == (dense < (1u64 << width) && spread == spread_spec(dense as u32)),
{
    dense < (1u64 << width) && spread == spread_word(dense as u32)
}

/// A modular-addition gate: the addends, given as 32-bit halves, add up to
/// the result plus `carry * 2^64`, and the carry is at most `max_carry`.
pub fn sum_gate(
    addends: &Vec<(u32, u32)>,
    result_lo: u32,
    result_hi: u32,
    carry: u64,
    max_carry: u64,
) -> (r: bool)
    requires
        addends.len() <= 0xFFFF_FFFF,
    ensures
        r == (pairs_sum(addends@) == pair_value((result_lo, result_hi)) + 0x1_0000_0000_0000_0000
            * (carry as nat) && carry <= max_carry),
{
    let (sum, sum_carry) = sum_with_carry(addends);
    let total = sum as u128 + 0x1_0000_0000_0000_0000u128 * (sum_carry as u128);
    let claimed = result_lo as u128 + 0x1_0000_0000u128 * (result_hi as u128)
        + 0x1_0000_0000_0000_0000u128 * (carry as u128);
    total == claimed && carry <= max_carry
}

/// `H' = H + Sigma_1(E) + Ch + Ch_neg + K + W`, carry in `0..=5`.
pub fn s_h_prime(
    h_prime: (u32, u32),
    h_prime_carry: u64,
    sigma_e: (u32, u32),
    ch: (u32, u32),
    ch_neg: (u32, u32),
    h: (u32, u32),
    k: (u32, u32),
    w: (u32, u32),
) -> (r: bool)
    ensures
        r == (pairs_sum(seq![h, sigma_e, ch, ch_neg, k, w]) == pair_value(h_prime)
            + 0x1_0000_0000_0000_0000 * (h_prime_carry as nat) && h_prime_carry <= 5),
{
    let v = vec![h, sigma_e, ch, ch_neg, k, w];
    assert(v@ =~= seq![h, sigma_e, ch, ch_neg, k, w]);
    sum_gate(&v, h_prime.0, h_prime.1, h_prime_carry, 5)
}

/// `A_new = H' + Sigma_0(A) + Maj(A, B, C)`, carry in `0..=2`.
pub fn s_a_new(
    a_new: (u32, u32),
    a_new_carry: u64,
    sigma_a: (u32, u32),
    maj_abc: (u32, u32),
    h_prime: (u32, u32),
) -> (r: bool)
    ensures
        r == (pairs_sum(seq![sigma_a, maj_abc, h_prime]) == pair_value(a_new)
            + 0x1_0000_0000_0000_0000 * (a_new_carry as nat) && a_new_carry <= 2),
{
    let v = vec![sigma_a, maj_abc, h_prime];
    assert(v@ =~= seq![sigma_a, maj_abc, h_prime]);
    sum_gate(&v, a_new.0, a_new.1, a_new_carry, 2)
}

/// `E_new = H' + D`, carry in `0..=1`.
pub fn s_e_new(e_new: (u32, u32), e_new_carry: u64, d: (u32, u32), h_prime: (u32, u32)) -> (r:
    bool)
    ensures
        r == (pairs_sum(seq![h_prime, d]) == pair_value(e_new) + 0x1_0000_0000_0000_0000 * (
        e_new_carry as nat) && e_new_carry <= 1),
{
    let v = vec![h_prime, d];
    assert(v@ =~= seq![h_prime, d]);
    sum_gate(&v, e_new.0, e_new.1, e_new_carry, 1)
}

/// The new schedule word `W_i = sigma_1(W_{i-2}) + W_{i-7} + sigma_0(W_{i-15}) +
/// W_{i-16}`, carry in `0..=3`.
pub fn s_word(
    word: (u32, u32),
    carry: u64,
    sigma_1: (u32, u32),
    w_7: (u32, u32),
    sigma_0: (u32, u32),
    w_16: (u32, u32),
) -> (r: bool)
    ensures
        r == (pairs_sum(seq![sigma_1, w_7, sigma_0, w_16]) == pair_value(word)
            + 0x1_0000_0000_0000_0000 * (carry as nat) && carry <= 3),
{
    let v = vec![sigma_1, w_7, sigma_0, w_16];
    assert(v@ =~= seq![sigma_1, w_7, sigma_0, w_16]);
    sum_gate(&v, word.0, word.1, carry, 3)
}

/// A 64-bit word is its halves: `lo + 2^32 hi - word = 0`.
pub fn s_digest(lo: u32, hi: u32, word: u64) -> (r: bool)
    ensures
        r == (word == join32(lo, hi)),
        r == (word as nat == pair_value((lo, hi))),
{
    proof {
        assert(join32(lo, hi) as nat == lo as nat + 0x1_0000_0000 * (hi as nat)) by {
            assert((lo as u64) | ((hi as u64) << 32u64) == (lo as u64) + 0x1_0000_0000u64 * (
            hi as u64)) by (bit_vector);
        }
    }
    word == ((lo as u64) | ((hi as u64) << 32u64))
}

/// Both halves of a word and its spread halves agree with a piece
/// decomposition, given the uniqueness of a base-2^64 representation.
proof fn lemma_spread_halves_agree(comb: u128, v: u64, spread_lo: u64, spread_hi: u64)
    requires
        comb == spread64_spec(v),
    ensures
        (comb as int == spread_lo as int + 0x1_0000_0000_0000_0000 * spread_hi as int) == (
        spread_lo == spread_spec(lo32(v)) && spread_hi == spread_spec(hi32(v))),
{
    lemma_spread64_halves(v);
    let m = 0x1_0000_0000_0000_0000int;
    let (a, b) = (spread_spec(lo32(v)) as int, spread_spec(hi32(v)) as int);
    let (c, d) = (spread_lo as int, spread_hi as int);
    if a + m * b == c + m * d {
        assert(a == c && b == d) by (nonlinear_arith)
            requires
                a + m * b == c + m * d,
                0 <= a < m,
                0 <= c < m,
                0 <= b,
                0 <= d,
                m == 0x1_0000_0000_0000_0000int,
        ;
    }
}

/// The A-type decomposition gate: the short pieces are in range (the long
/// ones are bounded by their lookups), the pieces weighted by their offsets
/// add up to `word_lo + 2^32 word_hi`, and their spread forms weighted alike
/// add up to `spread_lo + 2^64 spread_hi`. It holds exactly when the pieces are
/// well formed and reconstruct the word, and the spread halves are the word's.
pub fn s_decompose_abcd(
    p: &AbcdVar,
    word_lo: u32,
    word_hi: u32,
    spread_lo: u64,
    spread_hi: u64,
) -> (r: bool)
    ensures
        r == (p.wf() && p.value() == join32(word_lo, word_hi) && spread_lo == spread_spec(word_lo)
            && spread_hi == spread_spec(word_hi)),
{
    let short_in_range = range_check(p.b_lo, 0, 7) && range_check(p.b_hi, 0, 7) && range_check(
        p.c_lo,
        0,
        3,
    ) && range_check(p.c_hi, 0, 7);
    if !(short_in_range && p.a_lo < 0x4000 && p.a_hi < 0x4000 && p.d_lo < 0x4000 && p.d_hi
        < 0x800) {
        return false;
    }
    let (al, ah, bl, bh) = (p.a_lo, p.a_hi, p.b_lo, p.b_hi);
    let (cl, ch, dl, dh) = (p.c_lo, p.c_hi, p.d_lo, p.d_hi);
    let sum = al + ah * 0x4000 + bl * 0x1000_0000 + bh * 0x8000_0000 + cl * 0x4_0000_0000 + ch
        * 0x10_0000_0000 + dl * 0x80_0000_0000 + dh * 0x20_0000_0000_0000;
    let word = (word_lo as u64) | ((word_hi as u64) << 32u64);
    let ghost v = p.value();
    assert(sum == v) by (bit_vector)
        requires
            al < 0x4000 && ah < 0x4000 && bl < 8 && bh < 8 && cl < 4 && ch < 8 && dl < 0x4000
                && dh < 0x800,
            sum == al + ah * 0x4000 + bl * 0x1000_0000 + bh * 0x8000_0000 + cl * 0x4_0000_0000
                + ch * 0x10_0000_0000 + dl * 0x80_0000_0000 + dh * 0x20_0000_0000_0000,
            v == al | (ah << 14u64) | (bl << 28u64) | (bh << 31u64) | (cl << 34u64) | (ch
                << 36u64) | (dl << 39u64) | (dh << 53u64),
    ;
    if sum != word {
        return false;
    }
    let comb = spread_word64(al) | (spread_word64(ah) << 28u128) | (spread_word64(bl) << 56u128)
        | (spread_word64(bh) << 62u128) | (spread_word64(cl) << 68u128) | (spread_word64(ch)
        << 72u128) | (spread_word64(dl) << 78u128) | (spread_word64(dh) << 106u128);
    assert(comb == spread64_spec(v)) by (bit_vector)
        requires
            al < 0x4000 && ah < 0x4000 && bl < 8 && bh < 8 && cl < 4 && ch < 8 && dl < 0x4000
                && dh < 0x800,
            v == al | (ah << 14u64) | (bl << 28u64) | (bh << 31u64) | (cl << 34u64) | (ch
                << 36u64) | (dl << 39u64) | (dh << 53u64),
            comb == spread64_spec(al) | (spread64_spec(ah) << 28u128) | (spread64_spec(bl)
                << 56u128) | (spread64_spec(bh) << 62u128) | (spread64_spec(cl) << 68u128) | (
            spread64_spec(ch) << 72u128) | (spread64_spec(dl) << 78u128) | (spread64_spec(dh)
                << 106u128),
    ;
    proof {
        lemma_spread_halves_agree(comb, v, spread_lo, spread_hi);
        lemma_halves_of_join(word_lo, word_hi);
    }
    comb == spread_lo as u128 + 0x1_0000_0000_0000_0000u128 * (spread_hi as u128)
}

/// The E-type decomposition gate: as the A-type one, for the pieces of E.
pub fn s_decompose_efgh(
    p: &EfghVar,
    word_lo: u32,
    word_hi: u32,
    spread_lo: u64,
    spread_hi: u64,
) -> (r: bool)
    ensures
        r == (p.wf() && p.value() == join32(word_lo, word_hi) && spread_lo == spread_spec(word_lo)
            && spread_hi == spread_spec(word_hi)),
{
    if !(p.a < 0x4000 && range_check(p.b_lo, 0, 3) && range_check(p.b_hi, 0, 3) && p.c_lo
        < 0x2000 && p.c_hi < 0x400 && p.d_lo < 0x2000 && p.d_hi < 0x400) {
        return false;
    }
    let (a, bl, bh, cl) = (p.a, p.b_lo, p.b_hi, p.c_lo);
    let (ch, dl, dh) = (p.c_hi, p.d_lo, p.d_hi);
    let sum = a + bl * 0x4000 + bh * 0x1_0000 + cl * 0x4_0000 + ch * 0x8000_0000 + dl
        * 0x200_0000_0000 + dh * 0x40_0000_0000_0000;
    let word = (word_lo as u64) | ((word_hi as u64) << 32u64);
    let ghost v = p.value();
    assert(sum == v) by (bit_vector)
        requires
            a < 0x4000 && bl < 4 && bh < 4 && cl < 0x2000 && ch < 0x400 && dl < 0x2000 && dh
                < 0x400,
            sum == a + bl * 0x4000 + bh * 0x1_0000 + cl * 0x4_0000 + ch * 0x8000_0000 + dl
                * 0x200_0000_0000 + dh * 0x40_0000_0000_0000,
            v == a | (bl << 14u64) | (bh << 16u64) | (cl << 18u64) | (ch << 31u64) | (dl
                << 41u64) | (dh << 54u64),
    ;
    if sum != word {
        return false;
    }
    let comb = spread_word64(a) | (spread_word64(bl) << 28u128) | (spread_word64(bh) << 32u128)
        | (spread_word64(cl) << 36u128) | (spread_word64(ch) << 62u128) | (spread_word64(dl)
        << 82u128) | (spread_word64(dh) << 108u128);
    assert(comb == spread64_spec(v)) by (bit_vector)
        requires
            a < 0x4000 && bl < 4 && bh < 4 && cl < 0x2000 && ch < 0x400 && dl < 0x2000 && dh
                < 0x400,
            v == a | (bl << 14u64) | (bh << 16u64) | (cl << 18u64) | (ch << 31u64) | (dl
                << 41u64) | (dh << 54u64),
            comb == spread64_spec(a) | (spread64_spec(bl) << 28u128) | (spread64_spec(bh)
                << 32u128) | (spread64_spec(cl) << 36u128) | (spread64_spec(ch) << 62u128) | (
            spread64_spec(dl) << 82u128) | (spread64_spec(dh) << 108u128),
    ;
    proof {
        lemma_spread_halves_agree(comb, v, spread_lo, spread_hi);
        lemma_halves_of_join(word_lo, word_hi);
    }
    comb == spread_lo as u128 + 0x1_0000_0000_0000_0000u128 * (spread_hi as u128)
}

/// The complement check of the second choice gate: for each half, the spread
/// form of `NOT E` and that of `E` add up to the spread form of all ones.
pub fn neg_check(spread_neg_e: (u64, u64), spread_e: (u64, u64)) -> (r: bool)
    ensures
        r == (spread_neg_e.0 as int + spread_e.0 as int == spread_spec(0xFFFF_FFFFu32) as int
            && spread_neg_e.1 as int + spread_e.1 as int == spread_spec(0xFFFF_FFFFu32) as int),
{
    let ones = spread_word(0xFFFF_FFFFu32);
    spread_neg_e.0 as u128 + spread_e.0 as u128 == ones as u128 && spread_neg_e.1 as u128
        + spread_e.1 as u128 == ones as u128
}

/// The spread value that the outputs of a spread-sum gate stand for in one
/// half: `spread(even) + 2 * spread(odd)`.
pub open spec fn outputs_spread(even: u32, odd: u32) -> int {
    spread_spec(even) as int + 2 * spread_spec(odd) as int
}

/// A spread-sum gate: in each half, the sum of the spread inputs equals
/// `spread(even) + 2 * spread(odd)` of the looked-up outputs. The outputs'
/// spread forms come from the lookup.
pub fn spread_sum_gate(sum_lo: u128, sum_hi: u128, o: &SpreadOutputs) -> (r: bool)
    ensures
        r == (sum_lo as int == outputs_spread(o.even_lo, o.odd_lo) && sum_hi as int
            == outputs_spread(o.even_hi, o.odd_hi)),
{
    let lo = spread_word(o.even_lo) as u128 + 2 * (spread_word(o.odd_lo) as u128);
    let hi = spread_word(o.even_hi) as u128 + 2 * (spread_word(o.odd_hi) as u128);
    sum_lo == lo && sum_hi == hi
}

/// The outputs read from a spread sum pass the spread-sum gate on that sum.
pub proof fn lemma_spread_outputs_accepted(r_0: u64, r_1: u64)
    ensures
        outputs_spread(even_bits_spec(r_0), odd_bits_spec(r_0)) == r_0 as int,
        outputs_spread(even_bits_spec(r_1), odd_bits_spec(r_1)) == r_1 as int,
{
    lemma_spread_split(r_0);
    lemma_spread_split(r_1);
}

/// The first choice gate: `spread(E) + spread(F)` against the outputs.
pub fn s_ch(spread_e: (u64, u64), spread_f: (u64, u64), o: &SpreadOutputs) -> (r: bool)
    ensures
        r == (spread_e.0 as int + spread_f.0 as int == outputs_spread(o.even_lo, o.odd_lo)
            && spread_e.1 as int + spread_f.1 as int == outputs_spread(o.even_hi, o.odd_hi)),
{
    spread_sum_gate(
        spread_e.0 as u128 + spread_f.0 as u128,
        spread_e.1 as u128 + spread_f.1 as u128,
        o,
    )
}

/// The second choice gate: `spread(NOT E) + spread(G)` against the outputs,
/// with the complement check on `spread(NOT E)`.
pub fn s_ch_neg(
    spread_neg_e: (u64, u64),
    spread_e: (u64, u64),
    spread_g: (u64, u64),
    o: &SpreadOutputs,
) -> (r: bool)
    ensures
        r == (spread_neg_e.0 as int + spread_e.0 as int == spread_spec(0xFFFF_FFFFu32) as int
            && spread_neg_e.1 as int + spread_e.1 as int == spread_spec(0xFFFF_FFFFu32) as int
            && spread_neg_e.0 as int + spread_g.0 as int == outputs_spread(o.even_lo, o.odd_lo)
            && spread_neg_e.1 as int + spread_g.1 as int == outputs_spread(o.even_hi, o.odd_hi)),
{
    neg_check(spread_neg_e, spread_e) && spread_sum_gate(
        spread_neg_e.0 as u128 + spread_g.0 as u128,
        spread_neg_e.1 as u128 + spread_g.1 as u128,
        o,
    )
}

/// The majority gate: `spread(A) + spread(B) + spread(C)` against the outputs.
pub fn s_maj(
    spread_a: (u64, u64),
    spread_b: (u64, u64),
    spread_c: (u64, u64),
    o: &SpreadOutputs,
) -> (r: bool)
    ensures
        r == (spread_a.0 as int + spread_b.0 as int + spread_c.0 as int == outputs_spread(
            o.even_lo,
            o.odd_lo,
        ) && spread_a.1 as int + spread_b.1 as int + spread_c.1 as int == outputs_spread(
            o.even_hi,
            o.odd_hi,
        )),
{
    spread_sum_gate(
        spread_a.0 as u128 + spread_b.0 as u128 + spread_c.0 as u128,
        spread_a.1 as u128 + spread_b.1 as u128 + spread_c.1 as u128,
        o,
    )
}

/// The decomposition gate of a subregion-1 word: the chunks are in range and
/// reconstruct `word_lo + 2^32 word_hi`.
pub fn s_decompose_1(p: &Subregion1Word, word_lo: u32, word_hi: u32) -> (r: bool)
    ensures
        r == (p.wf() && p.value() == join32(word_lo, word_hi)),
{
    if !(range_check(p.a, 0, 1) && p.b < 64 && range_check(p.c, 0, 1) && p.d_lo_lo < 0x4000
        && p.d_lo_hi < 0x4000 && p.d_hi_lo < 0x4000 && p.d_hi_hi < 0x4000) {
        return false;
    }
    let (a, b, c, dll) = (p.a, p.b, p.c, p.d_lo_lo);
    let (dlh, dhl, dhh) = (p.d_lo_hi, p.d_hi_lo, p.d_hi_hi);
    let sum = a + b * 0x2 + c * 0x80 + dll * 0x100 + dlh * 0x40_0000 + dhl * 0x10_0000_0000
        + dhh * 0x4_0000_0000_0000;
    let word = (word_lo as u64) | ((word_hi as u64) << 32u64);
    assert(sum == (a | (b << 1u64) | (c << 7u64) | (dll << 8u64) | (dlh << 22u64)
        | (dhl << 36u64) | (dhh << 50u64))) by (bit_vector)
        requires
            a < 2 && b < 64 && c < 2 && dll < 0x4000 && dlh < 0x4000 && dhl < 0x4000
                && dhh < 0x4000,
            sum == a + b * 0x2 + c * 0x80 + dll * 0x100 + dlh * 0x40_0000
                + dhl * 0x10_0000_0000 + dhh * 0x4_0000_0000_0000,
    ;
    sum == word
}

/// The decomposition gate of a subregion-2 word: the chunks are in range and
/// reconstruct `word_lo + 2^32 word_hi`.
pub fn s_decompose_2(p: &Subregion2Word, word_lo: u32, word_hi: u32) -> (r: bool)
    ensures
        r == (p.wf() && p.value() == join32(word_lo, word_hi)),
{
    if !(range_check(p.a, 0, 1) && p.b < 32 && range_check(p.c, 0, 1) && range_check(p.d, 0,
        1) && p.e < 0x800 && p.f_lo < 0x4000 && p.f_mid < 0x4000 && p.f_hi < 0x4000
        && range_check(p.g, 0, 7)) {
        return false;
    }
    let (a, b, c, d) = (p.a, p.b, p.c, p.d);
    let (e, fl, fm, fh) = (p.e, p.f_lo, p.f_mid, p.f_hi);
    let g = p.g;
    let sum = a + b * 0x2 + c * 0x40 + d * 0x80 + e * 0x100 + fl * 0x8_0000
        + fm * 0x2_0000_0000 + fh * 0x8000_0000_0000 + g * 0x2000_0000_0000_0000;
    let word = (word_lo as u64) | ((word_hi as u64) << 32u64);
    assert(sum == (a | (b << 1u64) | (c << 6u64) | (d << 7u64) | (e << 8u64) | (fl << 19u64)
        | (fm << 33u64) | (fh << 47u64) | (g << 61u64))) by (bit_vector)
        requires
            a < 2 && b < 32 && c < 2 && d < 2 && e < 0x800 && fl < 0x4000 && fm < 0x4000
                && fh < 0x4000 && g < 8,
            sum == a + b * 0x2 + c * 0x40 + d * 0x80 + e * 0x100 + fl * 0x8_0000
                + fm * 0x2_0000_0000 + fh * 0x8000_0000_0000 + g * 0x2000_0000_0000_0000,
    ;
    sum == word
}

/// The decomposition gate of a subregion-3 word: the chunks are in range and
/// reconstruct `word_lo + 2^32 word_hi`.
pub fn s_decompose_3(p: &Subregion3Word, word_lo: u32, word_hi: u32) -> (r: bool)
    ensures
        r == (p.wf() && p.value() == join32(word_lo, word_hi)),
{
    if !(p.a < 64 && p.b < 0x2000 && p.c_lo_lo < 0x800 && p.c_lo_hi < 0x400
        && p.c_hi_lo < 0x800 && p.c_hi_hi < 0x400 && range_check(p.d, 0, 7)) {
        return false;
    }
    let (a, b, cll, clh) = (p.a, p.b, p.c_lo_lo, p.c_lo_hi);
    let (chl, chh, d) = (p.c_hi_lo, p.c_hi_hi, p.d);
    let sum = a + b * 0x40 + cll * 0x8_0000 + clh * 0x4000_0000 + chl * 0x100_0000_0000
        + chh * 0x8_0000_0000_0000 + d * 0x2000_0000_0000_0000;
    let word = (word_lo as u64) | ((word_hi as u64) << 32u64);
    assert(sum == (a | (b << 6u64) | (cll << 19u64) | (clh << 30u64) | (chl << 40u64)
        | (chh << 51u64) | (d << 61u64))) by (bit_vector)
        requires
            a < 64 && b < 0x2000 && cll < 0x800 && clh < 0x400 && chl < 0x800 && chh < 0x400
                && d < 8,
            sum == a + b * 0x40 + cll * 0x8_0000 + clh * 0x4000_0000 + chl * 0x100_0000_0000
                + chh * 0x8_0000_0000_0000 + d * 0x2000_0000_0000_0000,
    ;
    sum == word
}

} // verus!
