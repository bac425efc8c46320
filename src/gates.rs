//! XOR, AND and majority of 64-bit words computed the way the gates see them:
//! the spread forms of the 32-bit halves are added, and the even or odd bits
//! of each spread sum are read back.
use vstd::prelude::*;
use crate::bits::{
    even_bits_spec, even_word, join32, hi32, lemma_spread_xor_and, lemma_spread_xor3_maj,
    lo32, maj32, odd_bits_spec, odd_word, spread_spec, spread_word,
};
use crate::bits::{lemma_join_halves, pair_value, pairs_sum, sum_with_carry};
use crate::reference::{maj, mod64};

verus! {

/// The four 32-bit outputs read from a pair of spread sums `(R_0, R_1)`: the
/// even and odd bits of the low sum and of the high sum.
#[derive(Debug, Copy, Clone)]
pub struct SpreadOutputs {
    pub even_lo: u32,
    pub odd_lo: u32,
    pub even_hi: u32,
    pub odd_hi: u32,
}

/// Splits the spread sums `r_0` (low half) and `r_1` (high half) into their
/// even and odd bits.
pub fn assign_spread_outputs(r_0: u64, r_1: u64) -> (o: SpreadOutputs)
    ensures
        o.even_lo == even_bits_spec(r_0),
        o.odd_lo == odd_bits_spec(r_0),
        o.even_hi == even_bits_spec(r_1),
        o.odd_hi == odd_bits_spec(r_1),
{
    SpreadOutputs {
        even_lo: even_word(r_0),
        odd_lo: odd_word(r_0),
        even_hi: even_word(r_1),
        odd_hi: odd_word(r_1),
    }
}

/// The spread sums of the halves of three words: `(R_0, R_1)`.
pub open spec fn spread_sum3(x: u64, y: u64, z: u64) -> (u64, u64) {
    (
        (spread_spec(lo32(x)) + spread_spec(lo32(y)) + spread_spec(lo32(z))) as u64,
        (spread_spec(hi32(x)) + spread_spec(hi32(y)) + spread_spec(hi32(z))) as u64,
    )
}

/// Adds the spread forms of the halves of three words.
pub fn spread_sum_of_three(x: u64, y: u64, z: u64) -> (r: (u64, u64))
    ensures
        r == spread_sum3(x, y, z),
{
    proof {
        lemma_spread_xor3_maj(lo32(x), lo32(y), lo32(z));
        lemma_spread_xor3_maj(hi32(x), hi32(y), hi32(z));
    }
    let r_0 = spread_word((x & 0xFFFF_FFFFu64) as u32) + spread_word((y & 0xFFFF_FFFFu64) as u32)
        + spread_word((z & 0xFFFF_FFFFu64) as u32);
    let r_1 = spread_word((x >> 32u64) as u32) + spread_word((y >> 32u64) as u32) + spread_word(
        (z >> 32u64) as u32,
    );
    (r_0, r_1)
}

/// The halves of three words put side by side give the words' XOR and
/// majority.
pub proof fn lemma_join_xor3_maj(x: u64, y: u64, z: u64)
    ensures
        join32(lo32(x) ^ lo32(y) ^ lo32(z), hi32(x) ^ hi32(y) ^ hi32(z)) == x ^ y ^ z,
        join32(maj32(lo32(x), lo32(y), lo32(z)), maj32(hi32(x), hi32(y), hi32(z))) == maj(
            x,
            y,
            z,
        ),
{
    assert(join32(lo32(x) ^ lo32(y) ^ lo32(z), hi32(x) ^ hi32(y) ^ hi32(z)) == x ^ y ^ z
        && join32(maj32(lo32(x), lo32(y), lo32(z)), maj32(hi32(x), hi32(y), hi32(z))) == maj(
        x,
        y,
        z,
    )) by (bit_vector);
}

/// XOR of three words, read from the even bits of their spread sums.
pub fn xor_via_spread(x: u64, y: u64, z: u64) -> (r: u64)
    ensures
        r == x ^ y ^ z,
{
    let (r_0, r_1) = spread_sum_of_three(x, y, z);
    let o = assign_spread_outputs(r_0, r_1);
    proof {
        lemma_spread_xor3_maj(lo32(x), lo32(y), lo32(z));
        lemma_spread_xor3_maj(hi32(x), hi32(y), hi32(z));
        lemma_join_xor3_maj(x, y, z);
    }
    (o.even_lo as u64) | ((o.even_hi as u64) << 32u64)
}

/// Majority of three words, read from the odd bits of their spread sums.
pub fn maj_via_spread(x: u64, y: u64, z: u64) -> (r: u64)
    ensures
        r == maj(x, y, z),
{
    let (r_0, r_1) = spread_sum_of_three(x, y, z);
    let o = assign_spread_outputs(r_0, r_1);
    proof {
        lemma_spread_xor3_maj(lo32(x), lo32(y), lo32(z));
        lemma_spread_xor3_maj(hi32(x), hi32(y), hi32(z));
        lemma_join_xor3_maj(x, y, z);
    }
    (o.odd_lo as u64) | ((o.odd_hi as u64) << 32u64)
}

/// AND of two words given by the spread forms of their halves, read from the
/// odd bits of the spread sums.
pub fn and_via_spread(x_lo: u64, x_hi: u64, y_lo: u64, y_hi: u64, Ghost(x): Ghost<u64>,
    Ghost(y): Ghost<u64>) -> (r: u64)
    requires
        x_lo == spread_spec(lo32(x)),
        x_hi == spread_spec(hi32(x)),
        y_lo == spread_spec(lo32(y)),
        y_hi == spread_spec(hi32(y)),
    ensures
        r == x & y,
{
    proof {
        lemma_spread_xor_and(lo32(x), lo32(y));
        lemma_spread_xor_and(hi32(x), hi32(y));
    }
    let o = assign_spread_outputs(x_lo + y_lo, x_hi + y_hi);
    proof {
        assert(join32(lo32(x) & lo32(y), hi32(x) & hi32(y)) == x & y) by (bit_vector);
    }
    (o.odd_lo as u64) | ((o.odd_hi as u64) << 32u64)
}

/// The sum of a sequence of words, as an integer.
pub open spec fn words_sum(s: Seq<u64>) -> int
    decreases s.len(),
{
    if s.len() == 0 {
        0
    } else {
        words_sum(s.drop_last()) + s.last() as int
    }
}

/// Adds words through their 32-bit halves; returns the sum modulo 2^64 and
/// the carry beyond it.
pub fn add_words(words: &Vec<u64>) -> (r: (u64, u64))
    requires
        1 <= words.len() <= 0xFFFF_FFFF,
    ensures
        words_sum(words@) == r.0 as int + 0x1_0000_0000_0000_0000 * (r.1 as int),
        (r.1 as int) < words.len(),
        r.0 == mod64(words_sum(words@)),
{
    let mut pairs: Vec<(u32, u32)> = Vec::new();
    let mut i: usize = 0;
    while i < words.len()
        invariant
            i <= words.len(),
            pairs@.len() == i,
            pairs_sum(pairs@) == words_sum(words@.subrange(0, i as int)),
        decreases words.len() - i,
    {
        let w = words[i];
        let p = ((w & 0xFFFF_FFFFu64) as u32, (w >> 32u64) as u32);
        proof {
            lemma_join_halves(w);
            assert(pair_value(p) == w as nat);
            assert(pairs@.push(p).drop_last() =~= pairs@);
            assert(words@.subrange(0, i + 1).drop_last() =~= words@.subrange(0, i as int));
        }
        pairs.push(p);
        i = i + 1;
    }
    assert(words@.subrange(0, words.len() as int) =~= words@);
    let r = sum_with_carry(&pairs);
    proof {
        let t = words_sum(words@);
        let m = 0x1_0000_0000_0000_0000int;
        assert(t == r.0 as int + m * (r.1 as int));
        assert(t % m == r.0 as int) by (nonlinear_arith)
            requires
                t == r.0 as int + m * (r.1 as int),
                0 <= r.0 < m,
                r.1 >= 0,
                m == 0x1_0000_0000_0000_0000int,
        ;
    }
    r
}

} // verus!
