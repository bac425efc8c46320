//! The gates of one compression round, and those of one new schedule word,
//! taken together: a witness that meets all of them determines the new A and E
//! of the SHA-512 round function, or the new scheduled word.
use vstd::prelude::*;
use crate::bits::{
    hi32, join32, lemma_halves_of_join, lemma_join_halves, lemma_negate_spread,
    lemma_negate_spread_word, lemma_spread_pair, lemma_spread_split, lemma_spread_xor3_maj,
    lemma_spread_xor_and, lemma_spread_xor_and_word, lo32, negate_spread, pair_value, pairs_sum,
    spread_spec, sum_with_carry,
};
use crate::compression::{
    decompose_abcd, decompose_efgh, join_dense, match_state, AbcdVar, EfghVar, State,
};
use crate::constraints::{
    outputs_spread, s_a_new, s_ch, s_ch_neg, s_decompose_abcd, s_decompose_efgh, s_e_new, s_h_prime,
    s_maj,
};
use crate::gates::{assign_spread_outputs, lemma_join_xor3_maj, spread_sum_of_three, SpreadOutputs};
use crate::reference::{
    big_sigma_0, big_sigma_1, ch, lemma_mod64_absorb, maj, mod64, rotr, round_spec, small_sigma_0,
    small_sigma_1,
};
use crate::sigma_gates::{
    lemma_sigma_gate_complete, lemma_sigma_gate_sound, outputs_of, outputs_value, s_upper_sigma_0,
    s_upper_sigma_1, xor_spread,
};

verus! {

/// The cells that one main round assigns beyond the state it reads.
#[derive(Debug, Copy, Clone)]
pub struct RoundWitness {
    pub e_pieces: EfghVar,
    pub sigma_1: SpreadOutputs,
    pub ch: SpreadOutputs,
    pub spread_neg_e: (u64, u64),
    pub ch_neg: SpreadOutputs,
    pub a_pieces: AbcdVar,
    pub sigma_0: SpreadOutputs,
    pub maj: SpreadOutputs,
    pub h_prime: (u32, u32),
    pub h_prime_carry: u64,
    pub e_new: (u32, u32),
    pub e_new_carry: u64,
    pub a_new: (u32, u32),
    pub a_new_carry: u64,
}

/// The halves of a word as a pair.
pub open spec fn halves(w: u64) -> (u32, u32) {
    (lo32(w), hi32(w))
}

/// A two-input spread-sum gate, in both halves.
pub open spec fn spread_sum2_holds(x: u64, y: u64, o: SpreadOutputs) -> bool {
    &&& spread_spec(lo32(x)) as int + spread_spec(lo32(y)) as int == outputs_spread(
        o.even_lo,
        o.odd_lo,
    )
    &&& spread_spec(hi32(x)) as int + spread_spec(hi32(y)) as int == outputs_spread(
        o.even_hi,
        o.odd_hi,
    )
}

/// Every gate of main round `(k, w)` on state `s = (A, .., H)` holds on the
/// witness, the state's spread halves being those of its words.
pub open spec fn round_gates_hold(s: Seq<u64>, k: u64, w: u64, x: RoundWitness) -> bool {
    let (a, b, c, d, e, f, g, h) = (s[0], s[1], s[2], s[3], s[4], s[5], s[6], s[7]);
    &&& x.e_pieces.wf() && x.e_pieces.value() == e
    &&& xor_spread(rotr(e, 14), rotr(e, 18), rotr(e, 41)) == outputs_value(x.sigma_1)
    &&& spread_sum2_holds(e, f, x.ch)
    &&& x.spread_neg_e.0 as int + spread_spec(lo32(e)) as int == spread_spec(0xFFFF_FFFFu32) as int
    &&& x.spread_neg_e.1 as int + spread_spec(hi32(e)) as int == spread_spec(0xFFFF_FFFFu32) as int
    &&& x.spread_neg_e.0 as int + spread_spec(lo32(g)) as int == outputs_spread(
        x.ch_neg.even_lo,
        x.ch_neg.odd_lo,
    )
    &&& x.spread_neg_e.1 as int + spread_spec(hi32(g)) as int == outputs_spread(
        x.ch_neg.even_hi,
        x.ch_neg.odd_hi,
    )
    &&& x.a_pieces.wf() && x.a_pieces.value() == a
    &&& xor_spread(rotr(a, 28), rotr(a, 34), rotr(a, 39)) == outputs_value(x.sigma_0)
    &&& spread_spec(lo32(a)) as int + spread_spec(lo32(b)) as int + spread_spec(lo32(c)) as int
        == outputs_spread(x.maj.even_lo, x.maj.odd_lo)
    &&& spread_spec(hi32(a)) as int + spread_spec(hi32(b)) as int + spread_spec(hi32(c)) as int
        == outputs_spread(x.maj.even_hi, x.maj.odd_hi)
    &&& pairs_sum(
        seq![
            halves(h),
            (x.sigma_1.even_lo, x.sigma_1.even_hi),
            (x.ch.odd_lo, x.ch.odd_hi),
            (x.ch_neg.odd_lo, x.ch_neg.odd_hi),
            halves(k),
            halves(w),
        ],
    ) == pair_value(x.h_prime) + 0x1_0000_0000_0000_0000 * (x.h_prime_carry as nat)
    &&& x.h_prime_carry <= 5
    &&& pairs_sum(seq![x.h_prime, halves(d)]) == pair_value(x.e_new) + 0x1_0000_0000_0000_0000 * (
    x.e_new_carry as nat)
    &&& x.e_new_carry <= 1
    &&& pairs_sum(
        seq![(x.sigma_0.even_lo, x.sigma_0.even_hi), (x.maj.odd_lo, x.maj.odd_hi), x.h_prime],
    ) == pair_value(x.a_new) + 0x1_0000_0000_0000_0000 * (x.a_new_carry as nat)
    &&& x.a_new_carry <= 2
}

/// The value of a pair of halves is the word they join into.
proof fn lemma_pair_value_join(p: (u32, u32))
    ensures
        pair_value(p) == join32(p.0, p.1) as nat,
        pair_value(halves(join32(p.0, p.1))) == pair_value(p),
{
    let (lo, hi) = p;
    assert((lo as u64) | ((hi as u64) << 32u64) == (lo as u64) + 0x1_0000_0000u64 * (hi as u64)
        && lo32(join32(lo, hi)) == lo && hi32(join32(lo, hi)) == hi) by (bit_vector);
}

/// A two-input spread-sum gate that holds puts `x AND y` on its odd outputs.
proof fn lemma_spread_sum2_sound(x: u64, y: u64, o: SpreadOutputs)
    requires
        spread_sum2_holds(x, y, o),
    ensures
        join32(o.odd_lo, o.odd_hi) == x & y,
{
    lemma_spread_xor_and_word(x, y);
    lemma_spread_pair(o.even_lo, o.odd_lo);
    lemma_spread_pair(o.even_hi, o.odd_hi);
    crate::bits::lemma_spread_xor_and(lo32(x), lo32(y));
    crate::bits::lemma_spread_xor_and(hi32(x), hi32(y));
}

/// A modular-addition gate that holds gives the sum modulo 2^64.
proof fn lemma_sum_gate_sound(total: int, result: (u32, u32), carry: u64)
    requires
        total == pair_value(result) + 0x1_0000_0000_0000_0000 * (carry as nat),
    ensures
        join32(result.0, result.1) == mod64(total),
{
    lemma_pair_value_join(result);
    let m = 0x1_0000_0000_0000_0000int;
    let r = join32(result.0, result.1) as int;
    assert(total % m == r) by (nonlinear_arith)
        requires
            total == r + m * (carry as int),
            0 <= r < m,
            carry >= 0,
            m == 0x1_0000_0000_0000_0000int,
    ;
}

/// A witness that meets every gate of a main round fixes the round's new A
/// and new E to those of the SHA-512 round function.
pub proof fn lemma_round_gates_sound(s: Seq<u64>, k: u64, w: u64, x: RoundWitness)
    requires
        s.len() == 8,
        round_gates_hold(s, k, w, x),
    ensures
        join32(x.a_new.0, x.a_new.1) == round_spec(s, k, w)[0],
        join32(x.e_new.0, x.e_new.1) == round_spec(s, k, w)[4],
{
    let (a, b, c, d, e, f, g, h) = (s[0], s[1], s[2], s[3], s[4], s[5], s[6], s[7]);
    lemma_sigma_gate_sound(rotr(e, 14), rotr(e, 18), rotr(e, 41), x.sigma_1);
    lemma_sigma_gate_sound(rotr(a, 28), rotr(a, 34), rotr(a, 39), x.sigma_0);
    let sig1 = join32(x.sigma_1.even_lo, x.sigma_1.even_hi);
    let sig0 = join32(x.sigma_0.even_lo, x.sigma_0.even_hi);
    assert(sig1 == big_sigma_1(e));
    assert(sig0 == big_sigma_0(a));
    lemma_spread_sum2_sound(e, f, x.ch);
    let ch_ef = join32(x.ch.odd_lo, x.ch.odd_hi);
    // The complement check makes the negated spread halves those of `NOT e`.
    lemma_negate_spread_word(e);
    crate::bits::lemma_negate_spread(lo32(e));
    crate::bits::lemma_negate_spread(hi32(e));
    assert(x.spread_neg_e.0 == spread_spec(lo32(!e)));
    assert(x.spread_neg_e.1 == spread_spec(hi32(!e)));
    lemma_spread_sum2_sound(!e, g, x.ch_neg);
    let ch_neg = join32(x.ch_neg.odd_lo, x.ch_neg.odd_hi);
    assert(ch_ef as int + ch_neg as int == ch(e, f, g) as int) by {
        assert(((e & f) + (!e & g)) as int == ch(e, f, g) as int) by (bit_vector);
    }
    // Majority from the odd outputs of the three-input spread sum.
    lemma_spread_xor3_maj(lo32(a), lo32(b), lo32(c));
    lemma_spread_xor3_maj(hi32(a), hi32(b), hi32(c));
    lemma_spread_pair(x.maj.even_lo, x.maj.odd_lo);
    lemma_spread_pair(x.maj.even_hi, x.maj.odd_hi);
    lemma_join_xor3_maj(a, b, c);
    let maj_abc = join32(x.maj.odd_lo, x.maj.odd_hi);
    assert(maj_abc == maj(a, b, c));
    // The three sums.
    reveal_with_fuel(pairs_sum, 7);
    lemma_join_halves(h);
    lemma_join_halves(k);
    lemma_join_halves(w);
    lemma_join_halves(d);
    lemma_pair_value_join((x.sigma_1.even_lo, x.sigma_1.even_hi));
    lemma_pair_value_join((x.ch.odd_lo, x.ch.odd_hi));
    lemma_pair_value_join((x.ch_neg.odd_lo, x.ch_neg.odd_hi));
    lemma_pair_value_join((x.sigma_0.even_lo, x.sigma_0.even_hi));
    lemma_pair_value_join((x.maj.odd_lo, x.maj.odd_hi));
    lemma_pair_value_join(x.h_prime);
    let t1 = h as int + big_sigma_1(e) as int + ch(e, f, g) as int + k as int + w as int;
    let t2 = big_sigma_0(a) as int + maj(a, b, c) as int;
    let hp = join32(x.h_prime.0, x.h_prime.1);
    let s6 = seq![
        halves(h),
        (x.sigma_1.even_lo, x.sigma_1.even_hi),
        (x.ch.odd_lo, x.ch.odd_hi),
        (x.ch_neg.odd_lo, x.ch_neg.odd_hi),
        halves(k),
        halves(w),
    ];
    assert(s6.drop_last().drop_last().drop_last().drop_last().drop_last().drop_last()
        =~= Seq::<(u32, u32)>::empty());
    assert(pairs_sum(s6) == t1);
    lemma_sum_gate_sound(t1, x.h_prime, x.h_prime_carry);
    assert(hp == mod64(t1));
    let s2 = seq![x.h_prime, halves(d)];
    assert(s2.drop_last().drop_last() =~= Seq::<(u32, u32)>::empty());
    assert(pairs_sum(s2) == hp as int + d as int);
    lemma_sum_gate_sound(hp as int + d as int, x.e_new, x.e_new_carry);
    lemma_mod64_absorb(t1, d as int);
    assert(d as int + t1 == t1 + d as int);
    let s3 = seq![(x.sigma_0.even_lo, x.sigma_0.even_hi), (x.maj.odd_lo, x.maj.odd_hi), x.h_prime];
    assert(s3.drop_last().drop_last().drop_last() =~= Seq::<(u32, u32)>::empty());
    assert(pairs_sum(s3) == t2 + hp as int);
    lemma_sum_gate_sound(t2 + hp as int, x.a_new, x.a_new_carry);
    lemma_mod64_absorb(t1, t2);
    assert(t2 + hp as int == hp as int + t2);
}

/// The cells of a new schedule word `W_i`: the outputs of the lower-sigma
/// gates on `W_{i-15}` and `W_{i-2}`, the word's halves and its carry.
#[derive(Debug, Copy, Clone)]
pub struct WordWitness {
    pub sigma_0: SpreadOutputs,
    pub sigma_1: SpreadOutputs,
    pub word: (u32, u32),
    pub carry: u64,
}

/// The lower-sigma gates on `W_{i-15}` and `W_{i-2}` and the word gate that
/// adds their even outputs to `W_{i-7}` and `W_{i-16}` hold on the witness.
pub open spec fn word_gates_hold(w_2: u64, w_7: u64, w_15: u64, w_16: u64, x: WordWitness) -> bool {
    &&& xor_spread(rotr(w_15, 1), rotr(w_15, 8), w_15 >> 7u64) == outputs_value(x.sigma_0)
    &&& xor_spread(rotr(w_2, 19), rotr(w_2, 61), w_2 >> 6u64) == outputs_value(x.sigma_1)
    &&& pairs_sum(
        seq![
            (x.sigma_1.even_lo, x.sigma_1.even_hi),
            halves(w_7),
            (x.sigma_0.even_lo, x.sigma_0.even_hi),
            halves(w_16),
        ],
    ) == pair_value(x.word) + 0x1_0000_0000_0000_0000 * (x.carry as nat)
    &&& x.carry <= 3
}

/// When the gates of a new schedule word hold, the word is the one the
/// schedule defines.
pub proof fn lemma_word_gates_sound(w_2: u64, w_7: u64, w_15: u64, w_16: u64, x: WordWitness)
    requires
        word_gates_hold(w_2, w_7, w_15, w_16, x),
    ensures
        join32(x.word.0, x.word.1) == mod64(
            small_sigma_1(w_2) as int + w_7 as int + small_sigma_0(w_15) as int + w_16 as int,
        ),
{
    lemma_sigma_gate_sound(rotr(w_15, 1), rotr(w_15, 8), w_15 >> 7u64, x.sigma_0);
    lemma_sigma_gate_sound(rotr(w_2, 19), rotr(w_2, 61), w_2 >> 6u64, x.sigma_1);
    lemma_pair_value_join((x.sigma_0.even_lo, x.sigma_0.even_hi));
    lemma_pair_value_join((x.sigma_1.even_lo, x.sigma_1.even_hi));
    lemma_join_halves(w_7);
    lemma_join_halves(w_16);
    reveal_with_fuel(pairs_sum, 5);
    let s4 = seq![
        (x.sigma_1.even_lo, x.sigma_1.even_hi),
        halves(w_7),
        (x.sigma_0.even_lo, x.sigma_0.even_hi),
        halves(w_16),
    ];
    assert(s4.drop_last().drop_last().drop_last().drop_last() =~= Seq::<(u32, u32)>::empty());
    let total = small_sigma_1(w_2) as int + w_7 as int + small_sigma_0(w_15) as int + w_16 as int;
    assert(pairs_sum(s4) == total);
    lemma_sum_gate_sound(total, x.word, x.carry);
}

/// Evaluates every gate of main round `(k, w)` on a well-formed state and a
/// witness.
pub fn check_round(state: &State, k: u64, w: u64, x: &RoundWitness) -> (r: bool)
    requires
        state.wf(),
    ensures
        r == round_gates_hold(state.value(), k, w, *x),
{
    let (a, b, c, d, e, f, g, h) = match_state(*state);
    proof {
        lemma_halves_of_join(a.dense_halves.lo, a.dense_halves.hi);
        lemma_halves_of_join(b.dense_halves.lo, b.dense_halves.hi);
        lemma_halves_of_join(c.dense_halves.lo, c.dense_halves.hi);
        lemma_halves_of_join(d.lo, d.hi);
        lemma_halves_of_join(e.dense_halves.lo, e.dense_halves.hi);
        lemma_halves_of_join(f.dense_halves.lo, f.dense_halves.hi);
        lemma_halves_of_join(g.dense_halves.lo, g.dense_halves.hi);
        lemma_halves_of_join(h.lo, h.hi);
        lemma_join_halves(k);
        lemma_join_halves(w);
    }
    let se = (e.spread_halves.lo, e.spread_halves.hi);
    let sf = (f.spread_halves.lo, f.spread_halves.hi);
    let sg = (g.spread_halves.lo, g.spread_halves.hi);
    let sa = (a.spread_halves.lo, a.spread_halves.hi);
    let sb = (b.spread_halves.lo, b.spread_halves.hi);
    let sc = (c.spread_halves.lo, c.spread_halves.hi);
    let e_ok = s_decompose_efgh(
        &x.e_pieces,
        e.dense_halves.lo,
        e.dense_halves.hi,
        se.0,
        se.1,
    ) && s_upper_sigma_1(&x.e_pieces, &x.sigma_1);
    let ch_ok = s_ch(se, sf, &x.ch) && s_ch_neg(x.spread_neg_e, se, sg, &x.ch_neg);
    let a_ok = s_decompose_abcd(
        &x.a_pieces,
        a.dense_halves.lo,
        a.dense_halves.hi,
        sa.0,
        sa.1,
    ) && s_upper_sigma_0(&x.a_pieces, &x.sigma_0);
    let maj_ok = s_maj(sa, sb, sc, &x.maj);
    let k_halves = ((k & 0xFFFF_FFFFu64) as u32, (k >> 32u64) as u32);
    let w_halves = ((w & 0xFFFF_FFFFu64) as u32, (w >> 32u64) as u32);
    let sums_ok = s_h_prime(
        x.h_prime,
        x.h_prime_carry,
        (x.sigma_1.even_lo, x.sigma_1.even_hi),
        (x.ch.odd_lo, x.ch.odd_hi),
        (x.ch_neg.odd_lo, x.ch_neg.odd_hi),
        (h.lo, h.hi),
        k_halves,
        w_halves,
    ) && s_e_new(x.e_new, x.e_new_carry, (d.lo, d.hi), x.h_prime) && s_a_new(
        x.a_new,
        x.a_new_carry,
        (x.sigma_0.even_lo, x.sigma_0.even_hi),
        (x.maj.odd_lo, x.maj.odd_hi),
        x.h_prime,
    );
    e_ok && ch_ok && a_ok && maj_ok && sums_ok
}

/// The outputs of a spread sum of three words, and their gate equation.
fn sigma_outputs(x: u64, y: u64, z: u64) -> (o: SpreadOutputs)
    ensures
        xor_spread(x, y, z) == outputs_value(o),
{
    let (r_0, r_1) = spread_sum_of_three(x, y, z);
    let o = assign_spread_outputs(r_0, r_1);
    proof {
        lemma_sigma_gate_complete(x, y, z);
        assert(o == outputs_of(x, y, z));
    }
    o
}

/// The outputs of the sums of two pairs of spread halves, from the dense
/// words `x` and `y` whose spread halves they are.
fn spread_sum2_outputs(
    x_lo: u64,
    x_hi: u64,
    y_lo: u64,
    y_hi: u64,
    Ghost(x): Ghost<u64>,
    Ghost(y): Ghost<u64>,
) -> (o: SpreadOutputs)
    requires
        x_lo == spread_spec(lo32(x)),
        x_hi == spread_spec(hi32(x)),
        y_lo == spread_spec(lo32(y)),
        y_hi == spread_spec(hi32(y)),
    ensures
        spread_sum2_holds(x, y, o),
{
    proof {
        lemma_spread_xor_and(lo32(x), lo32(y));
        lemma_spread_xor_and(hi32(x), hi32(y));
        lemma_spread_split((x_lo + y_lo) as u64);
        lemma_spread_split((x_hi + y_hi) as u64);
    }
    assign_spread_outputs(x_lo + y_lo, x_hi + y_hi)
}

/// `(x >> n) | (x << (64 - n))`, the rotation of `x` to the right by `n`.
fn rotate(x: u64, n: u64) -> (r: u64)
    requires
        0 < n < 64,
    ensures
        r == rotr(x, n),
{
    (x >> n) | (x << (64 - n))
}

/// Assigns every cell of main round `(k, w)` on a well-formed state: the
/// pieces of A and E, the outputs of the sigma, choice and majority gates,
/// the complemented spread of E, and the three sums with their carries. The
/// witness meets every gate of the round.
pub fn round_witness(state: &State, k: u64, w: u64) -> (x: RoundWitness)
    requires
        state.wf(),
    ensures
        round_gates_hold(state.value(), k, w, x),
{
    let (a, b, c, d, e, f, g, h) = match_state(*state);
    proof {
        lemma_halves_of_join(a.dense_halves.lo, a.dense_halves.hi);
        lemma_halves_of_join(b.dense_halves.lo, b.dense_halves.hi);
        lemma_halves_of_join(c.dense_halves.lo, c.dense_halves.hi);
        lemma_halves_of_join(d.lo, d.hi);
        lemma_halves_of_join(e.dense_halves.lo, e.dense_halves.hi);
        lemma_halves_of_join(f.dense_halves.lo, f.dense_halves.hi);
        lemma_halves_of_join(g.dense_halves.lo, g.dense_halves.hi);
        lemma_halves_of_join(h.lo, h.hi);
        lemma_join_halves(k);
        lemma_join_halves(w);
    }
    let av = join_dense(&a.dense_halves);
    let ev = join_dense(&e.dense_halves);
    let e_pieces = decompose_efgh(ev);
    let sigma_1 = sigma_outputs(rotate(ev, 14), rotate(ev, 18), rotate(ev, 41));
    let ch = spread_sum2_outputs(
        e.spread_halves.lo,
        e.spread_halves.hi,
        f.spread_halves.lo,
        f.spread_halves.hi,
        Ghost(ev),
        Ghost(f.value()),
    );
    proof {
        lemma_negate_spread(lo32(ev));
        lemma_negate_spread(hi32(ev));
        lemma_negate_spread_word(ev);
    }
    let spread_neg_e = (negate_spread(e.spread_halves.lo), negate_spread(e.spread_halves.hi));
    let ch_neg = spread_sum2_outputs(
        spread_neg_e.0,
        spread_neg_e.1,
        g.spread_halves.lo,
        g.spread_halves.hi,
        Ghost(!ev),
        Ghost(g.value()),
    );
    let a_pieces = decompose_abcd(av);
    let sigma_0 = sigma_outputs(rotate(av, 28), rotate(av, 34), rotate(av, 39));
    proof {
        lemma_spread_xor3_maj(lo32(av), lo32(b.value()), lo32(c.value()));
        lemma_spread_xor3_maj(hi32(av), hi32(b.value()), hi32(c.value()));
    }
    let maj_lo = a.spread_halves.lo + b.spread_halves.lo + c.spread_halves.lo;
    let maj_hi = a.spread_halves.hi + b.spread_halves.hi + c.spread_halves.hi;
    proof {
        lemma_spread_split(maj_lo);
        lemma_spread_split(maj_hi);
    }
    let maj = assign_spread_outputs(maj_lo, maj_hi);
    let k_halves = ((k & 0xFFFF_FFFFu64) as u32, (k >> 32u64) as u32);
    let w_halves = ((w & 0xFFFF_FFFFu64) as u32, (w >> 32u64) as u32);
    let h_terms = vec![
        (h.lo, h.hi),
        (sigma_1.even_lo, sigma_1.even_hi),
        (ch.odd_lo, ch.odd_hi),
        (ch_neg.odd_lo, ch_neg.odd_hi),
        k_halves,
        w_halves,
    ];
    let (hp, h_prime_carry) = sum_with_carry(&h_terms);
    proof {
        lemma_join_halves(hp);
    }
    let h_prime = ((hp & 0xFFFF_FFFFu64) as u32, (hp >> 32u64) as u32);
    let e_terms = vec![h_prime, (d.lo, d.hi)];
    let (en, e_new_carry) = sum_with_carry(&e_terms);
    let a_terms = vec![(sigma_0.even_lo, sigma_0.even_hi), (maj.odd_lo, maj.odd_hi), h_prime];
    let (an, a_new_carry) = sum_with_carry(&a_terms);
    proof {
        lemma_join_halves(en);
        lemma_join_halves(an);
        let s = state.value();
        assert(h_terms@ =~= seq![
            halves(s[7]),
            (sigma_1.even_lo, sigma_1.even_hi),
            (ch.odd_lo, ch.odd_hi),
            (ch_neg.odd_lo, ch_neg.odd_hi),
            halves(k),
            halves(w),
        ]);
        assert(e_terms@ =~= seq![h_prime, halves(s[3])]);
        assert(a_terms@ =~= seq![(sigma_0.even_lo, sigma_0.even_hi), (maj.odd_lo, maj.odd_hi),
            h_prime]);
    }
    RoundWitness {
        e_pieces,
        sigma_1,
        ch,
        spread_neg_e,
        ch_neg,
        a_pieces,
        sigma_0,
        maj,
        h_prime,
        h_prime_carry,
        e_new: ((en & 0xFFFF_FFFFu64) as u32, (en >> 32u64) as u32),
        e_new_carry,
        a_new: ((an & 0xFFFF_FFFFu64) as u32, (an >> 32u64) as u32),
        a_new_carry,
    }
}

/// Assigns the cells of a new schedule word from `W_{i-2}`, `W_{i-7}`,
/// `W_{i-15}` and `W_{i-16}`; the witness meets the word's gates.
pub fn word_witness(w_2: u64, w_7: u64, w_15: u64, w_16: u64) -> (x: WordWitness)
    ensures
        word_gates_hold(w_2, w_7, w_15, w_16, x),
        join32(x.word.0, x.word.1) == mod64(
            small_sigma_1(w_2) as int + w_7 as int + small_sigma_0(w_15) as int + w_16 as int,
        ),
{
    let sigma_0 = sigma_outputs(rotate(w_15, 1), rotate(w_15, 8), w_15 >> 7u64);
    let sigma_1 = sigma_outputs(rotate(w_2, 19), rotate(w_2, 61), w_2 >> 6u64);
    let terms = vec![
        (sigma_1.even_lo, sigma_1.even_hi),
        ((w_7 & 0xFFFF_FFFFu64) as u32, (w_7 >> 32u64) as u32),
        (sigma_0.even_lo, sigma_0.even_hi),
        ((w_16 & 0xFFFF_FFFFu64) as u32, (w_16 >> 32u64) as u32),
    ];
    let (sum, carry) = sum_with_carry(&terms);
    proof {
        lemma_join_halves(sum);
        assert(terms@ =~= seq![
            (sigma_1.even_lo, sigma_1.even_hi),
            halves(w_7),
            (sigma_0.even_lo, sigma_0.even_hi),
            halves(w_16),
        ]);
    }
    let x = WordWitness {
        sigma_0,
        sigma_1,
        word: ((sum & 0xFFFF_FFFFu64) as u32, (sum >> 32u64) as u32),
        carry,
    };
    proof {
        lemma_word_gates_sound(w_2, w_7, w_15, w_16, x);
    }
    x
}

} // verus!
