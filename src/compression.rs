//! The compression core: the state registers with their halves, spread forms
//! and piece decompositions, and the 80 rounds computed through the gates.
use vstd::prelude::*;
use crate::bits::{
    hi32, join32, lemma_halves_of_join, lemma_join_halves, lemma_negate_spread,
    lemma_negate_spread_word, lemma_spread_xor3_maj, lo32, negate_spread, spread_spec,
    spread_word,
};
use crate::gates::{
    add_words, and_via_spread, assign_spread_outputs, lemma_join_xor3_maj, words_sum,
    xor_via_spread, SpreadOutputs,
};
use crate::layout::MainRoundIdx;
use crate::reference::{
    big_sigma_0, big_sigma_1, ch, compress_spec, iv_seq, iv_word, k_spec, maj, mod64,
    round_constant, round_spec, rounds_spec, rotr, schedule_word, BLOCK_SIZE,
    ROUNDS, STATE,
};
use crate::round_gates::{lemma_round_gates_sound, round_gates_hold, round_witness, RoundWitness};
use crate::schedule::process;
use crate::table::SpreadWord;

verus! {

/// A word kept as its dense 32-bit halves.
#[derive(Debug, Copy, Clone)]
pub struct RoundWordDense {
    pub lo: u32,
    pub hi: u32,
}

impl RoundWordDense {
    /// The 64-bit word.
    pub open spec fn value(&self) -> u64 {
        join32(self.lo, self.hi)
    }
}

/// The spread forms of the two halves of a word.
#[derive(Debug, Copy, Clone)]
pub struct RoundWordSpread {
    pub lo: u64,
    pub hi: u64,
}

/// A word with its dense halves and their spread forms.
#[derive(Debug, Copy, Clone)]
pub struct RoundWord {
    pub dense_halves: RoundWordDense,
    pub spread_halves: RoundWordSpread,
}

/// The spread halves are the spread forms of the dense halves.
pub open spec fn spread_matches(d: RoundWordDense, s: RoundWordSpread) -> bool {
    s.lo == spread_spec(d.lo) && s.hi == spread_spec(d.hi)
}

impl RoundWord {
    pub open spec fn wf(&self) -> bool {
        spread_matches(self.dense_halves, self.spread_halves)
    }

    pub open spec fn value(&self) -> u64 {
        self.dense_halves.value()
    }
}

/// The pieces of an A-type word for Sigma 0: `(28, 6, 5, 25)` bits, each cut
/// further to fit the lookup: `a` in 14 + 14, `b` in 3 + 3, `c` in 2 + 3, `d`
/// in 14 + 11.
#[derive(Debug, Copy, Clone)]
pub struct AbcdVar {
    pub a_lo: u64,
    pub a_hi: u64,
    pub b_lo: u64,
    pub b_hi: u64,
    pub c_lo: u64,
    pub c_hi: u64,
    pub d_lo: u64,
    pub d_hi: u64,
}

impl AbcdVar {
    /// Every piece fits its width.
    pub open spec fn wf(&self) -> bool {
        self.a_lo < 0x4000 && self.a_hi < 0x4000 && self.b_lo < 8 && self.b_hi < 8 && self.c_lo
            < 4 && self.c_hi < 8 && self.d_lo < 0x4000 && self.d_hi < 0x800
    }

    /// The word that the pieces reconstruct.
    pub open spec fn value(&self) -> u64 {
        self.a_lo | (self.a_hi << 14u64) | (self.b_lo << 28u64) | (self.b_hi << 31u64) | (
        self.c_lo << 34u64) | (self.c_hi << 36u64) | (self.d_lo << 39u64) | (self.d_hi << 53u64)
    }

    /// The pieces, from the low end.
    pub open spec fn pieces_seq(&self) -> Seq<u64> {
        seq![self.a_lo, self.a_hi, self.b_lo, self.b_hi, self.c_lo, self.c_hi, self.d_lo, self.d_hi]
    }

    /// Each piece with its tag and spread form, as the lookup and the short
    /// spread-and-range gates hold them.
    pub fn spread_words(&self) -> (r: Vec<SpreadWord>)
        ensures
            r@.len() == 8,
            forall|i: int| 0 <= i < 8 ==> (#[trigger] r@[i]).wf() && r@[i].dense
                == self.pieces_seq()[i],
    {
        let r = vec![
            SpreadWord::new(self.a_lo),
            SpreadWord::new(self.a_hi),
            SpreadWord::new(self.b_lo),
            SpreadWord::new(self.b_hi),
            SpreadWord::new(self.c_lo),
            SpreadWord::new(self.c_hi),
            SpreadWord::new(self.d_lo),
            SpreadWord::new(self.d_hi),
        ];
        r
    }

    /// Sigma 0 of the word: `ROTR 28`, `ROTR 34` and `ROTR 39` laid out from the
    /// pieces, then XORed through their spread forms.
    pub fn xor_upper_sigma(&self) -> (r: u64)
        requires
            self.wf(),
        ensures
            r == big_sigma_0(self.value()),
    {
        let (al, ah, bl, bh) = (self.a_lo, self.a_hi, self.b_lo, self.b_hi);
        let (cl, ch, dl, dh) = (self.c_lo, self.c_hi, self.d_lo, self.d_hi);
        let a = al | (ah << 14u64);
        let b = bl | (bh << 3u64);
        let c = cl | (ch << 2u64);
        let d = dl | (dh << 14u64);
        let rot_28 = b | (c << 6u64) | (d << 11u64) | (a << 36u64);
        let rot_34 = c | (d << 5u64) | (a << 30u64) | (b << 58u64);
        let rot_39 = d | (a << 25u64) | (b << 53u64) | (c << 59u64);
        let ghost x = self.value();
        assert(rot_28 == rotr(x, 28) && rot_34 == rotr(x, 34) && rot_39 == rotr(x, 39))
            by (bit_vector)
            requires
                al < 0x4000 && ah < 0x4000 && bl < 8 && bh < 8 && cl < 4 && ch < 8 && dl < 0x4000
                    && dh < 0x800,
                a == al | (ah << 14u64),
                b == bl | (bh << 3u64),
                c == cl | (ch << 2u64),
                d == dl | (dh << 14u64),
                x == al | (ah << 14u64) | (bl << 28u64) | (bh << 31u64) | (cl << 34u64) | (ch
                    << 36u64) | (dl << 39u64) | (dh << 53u64),
                rot_28 == b | (c << 6u64) | (d << 11u64) | (a << 36u64),
                rot_34 == c | (d << 5u64) | (a << 30u64) | (b << 58u64),
                rot_39 == d | (a << 25u64) | (b << 53u64) | (c << 59u64),
        ;
        xor_via_spread(rot_28, rot_34, rot_39)
    }
}

/// Cuts an A-type word into its Sigma 0 pieces.
pub fn decompose_abcd(val: u64) -> (r: AbcdVar)
    ensures
        r.wf(),
        r.value() == val,
{
    let a_lo = val & 0x3FFF;
    let a_hi = (val >> 14u64) & 0x3FFF;
    let b_lo = (val >> 28u64) & 7;
    let b_hi = (val >> 31u64) & 7;
    let c_lo = (val >> 34u64) & 3;
    let c_hi = (val >> 36u64) & 7;
    let d_lo = (val >> 39u64) & 0x3FFF;
    let d_hi = val >> 53u64;
    assert(a_lo < 0x4000 && a_hi < 0x4000 && b_lo < 8 && b_hi < 8 && c_lo < 4 && c_hi < 8 && d_lo
        < 0x4000 && d_hi < 0x800 && (a_lo | (a_hi << 14u64) | (b_lo << 28u64) | (b_hi << 31u64) | (
    c_lo << 34u64) | (c_hi << 36u64) | (d_lo << 39u64) | (d_hi << 53u64)) == val) by (bit_vector)
        requires
            a_lo == val & 0x3FFF,
            a_hi == (val >> 14u64) & 0x3FFF,
            b_lo == (val >> 28u64) & 7,
            b_hi == (val >> 31u64) & 7,
            c_lo == (val >> 34u64) & 3,
            c_hi == (val >> 36u64) & 7,
            d_lo == (val >> 39u64) & 0x3FFF,
            d_hi == val >> 53u64,
    ;
    AbcdVar { a_lo, a_hi, b_lo, b_hi, c_lo, c_hi, d_lo, d_hi }
}

/// The pieces of an E-type word for Sigma 1: `(14, 4, 23, 23)` bits, each cut
/// further to fit the lookup: `b` in 2 + 2, `c` and `d` in 13 + 10.
#[derive(Debug, Copy, Clone)]
pub struct EfghVar {
    pub a: u64,
    pub b_lo: u64,
    pub b_hi: u64,
    pub c_lo: u64,
    pub c_hi: u64,
    pub d_lo: u64,
    pub d_hi: u64,
}

impl EfghVar {
    /// Every piece fits its width.
    pub open spec fn wf(&self) -> bool {
        self.a < 0x4000 && self.b_lo < 4 && self.b_hi < 4 && self.c_lo < 0x2000 && self.c_hi
            < 0x400 && self.d_lo < 0x2000 && self.d_hi < 0x400
    }

    /// The word that the pieces reconstruct.
    pub open spec fn value(&self) -> u64 {
        self.a | (self.b_lo << 14u64) | (self.b_hi << 16u64) | (self.c_lo << 18u64) | (self.c_hi
            << 31u64) | (self.d_lo << 41u64) | (self.d_hi << 54u64)
    }

    /// The pieces, from the low end.
    pub open spec fn pieces_seq(&self) -> Seq<u64> {
        seq![self.a, self.b_lo, self.b_hi, self.c_lo, self.c_hi, self.d_lo, self.d_hi]
    }

    /// Each piece with its tag and spread form, as the lookup and the short
    /// spread-and-range gates hold them.
    pub fn spread_words(&self) -> (r: Vec<SpreadWord>)
        ensures
            r@.len() == 7,
            forall|i: int| 0 <= i < 7 ==> (#[trigger] r@[i]).wf() && r@[i].dense
                == self.pieces_seq()[i],
    {
        let r = vec![
            SpreadWord::new(self.a),
            SpreadWord::new(self.b_lo),
            SpreadWord::new(self.b_hi),
            SpreadWord::new(self.c_lo),
            SpreadWord::new(self.c_hi),
            SpreadWord::new(self.d_lo),
            SpreadWord::new(self.d_hi),
        ];
        r
    }

    /// Sigma 1 of the word: `ROTR 14`, `ROTR 18` and `ROTR 41` laid out from the
    /// pieces, then XORed through their spread forms.
    pub fn xor_upper_sigma(&self) -> (r: u64)
        requires
            self.wf(),
        ensures
            r == big_sigma_1(self.value()),
    {
        let (a, bl, bh, cl) = (self.a, self.b_lo, self.b_hi, self.c_lo);
        let (ch, dl, dh) = (self.c_hi, self.d_lo, self.d_hi);
        let b = bl | (bh << 2u64);
        let c = cl | (ch << 13u64);
        let d = dl | (dh << 13u64);
        let rot_14 = b | (c << 4u64) | (d << 27u64) | (a << 50u64);
        let rot_18 = c | (d << 23u64) | (a << 46u64) | (b << 60u64);
        let rot_41 = d | (a << 23u64) | (b << 37u64) | (c << 41u64);
        let ghost x = self.value();
        assert(rot_14 == rotr(x, 14) && rot_18 == rotr(x, 18) && rot_41 == rotr(x, 41))
            by (bit_vector)
            requires
                a < 0x4000 && bl < 4 && bh < 4 && cl < 0x2000 && ch < 0x400 && dl < 0x2000 && dh
                    < 0x400,
                b == bl | (bh << 2u64),
                c == cl | (ch << 13u64),
                d == dl | (dh << 13u64),
                x == a | (bl << 14u64) | (bh << 16u64) | (cl << 18u64) | (ch << 31u64) | (dl
                    << 41u64) | (dh << 54u64),
                rot_14 == b | (c << 4u64) | (d << 27u64) | (a << 50u64),
                rot_18 == c | (d << 23u64) | (a << 46u64) | (b << 60u64),
                rot_41 == d | (a << 23u64) | (b << 37u64) | (c << 41u64),
        ;
        xor_via_spread(rot_14, rot_18, rot_41)
    }
}

/// Cuts an E-type word into its Sigma 1 pieces.
pub fn decompose_efgh(val: u64) -> (r: EfghVar)
    ensures
        r.wf(),
        r.value() == val,
{
    let a = val & 0x3FFF;
    let b_lo = (val >> 14u64) & 3;
    let b_hi = (val >> 16u64) & 3;
    let c_lo = (val >> 18u64) & 0x1FFF;
    let c_hi = (val >> 31u64) & 0x3FF;
    let d_lo = (val >> 41u64) & 0x1FFF;
    let d_hi = val >> 54u64;
    assert(a < 0x4000 && b_lo < 4 && b_hi < 4 && c_lo < 0x2000 && c_hi < 0x400 && d_lo < 0x2000
        && d_hi < 0x400 && (a | (b_lo << 14u64) | (b_hi << 16u64) | (c_lo << 18u64) | (c_hi
        << 31u64) | (d_lo << 41u64) | (d_hi << 54u64)) == val) by (bit_vector)
        requires
            a == val & 0x3FFF,
            b_lo == (val >> 14u64) & 3,
            b_hi == (val >> 16u64) & 3,
            c_lo == (val >> 18u64) & 0x1FFF,
            c_hi == (val >> 31u64) & 0x3FF,
            d_lo == (val >> 41u64) & 0x1FFF,
            d_hi == val >> 54u64,
    ;
    EfghVar { a, b_lo, b_hi, c_lo, c_hi, d_lo, d_hi }
}

/// Register A: its Sigma 0 pieces, dense halves and spread halves.
#[derive(Debug, Copy, Clone)]
pub struct RoundWordA {
    pub pieces: AbcdVar,
    pub dense_halves: RoundWordDense,
    pub spread_halves: RoundWordSpread,
}

impl RoundWordA {
    pub open spec fn wf(&self) -> bool {
        self.pieces.wf() && self.pieces.value() == self.dense_halves.value() && spread_matches(
            self.dense_halves,
            self.spread_halves,
        )
    }

    pub open spec fn value(&self) -> u64 {
        self.dense_halves.value()
    }
}

/// Register E: its Sigma 1 pieces, dense halves and spread halves.
#[derive(Debug, Copy, Clone)]
pub struct RoundWordE {
    pub pieces: EfghVar,
    pub dense_halves: RoundWordDense,
    pub spread_halves: RoundWordSpread,
}

impl RoundWordE {
    pub open spec fn wf(&self) -> bool {
        self.pieces.wf() && self.pieces.value() == self.dense_halves.value() && spread_matches(
            self.dense_halves,
            self.spread_halves,
        )
    }

    pub open spec fn value(&self) -> u64 {
        self.dense_halves.value()
    }
}

/// The dense halves of a word.
pub fn assign_word_halves_dense(word: u64) -> (r: RoundWordDense)
    ensures
        r.value() == word,
        r.lo == lo32(word),
        r.hi == hi32(word),
{
    proof {
        lemma_join_halves(word);
    }
    RoundWordDense { lo: (word & 0xFFFF_FFFFu64) as u32, hi: (word >> 32u64) as u32 }
}

/// The dense halves of a word and their spread forms.
pub fn assign_word_halves(word: u64) -> (r: RoundWord)
    ensures
        r.wf(),
        r.value() == word,
{
    let dense_halves = assign_word_halves_dense(word);
    let spread_halves = RoundWordSpread {
        lo: spread_word(dense_halves.lo),
        hi: spread_word(dense_halves.hi),
    };
    RoundWord { dense_halves, spread_halves }
}

/// Register A's full assignment from its value.
pub fn decompose_a(val: u64) -> (r: RoundWordA)
    ensures
        r.wf(),
        r.value() == val,
{
    let w = assign_word_halves(val);
    RoundWordA {
        pieces: decompose_abcd(val),
        dense_halves: w.dense_halves,
        spread_halves: w.spread_halves,
    }
}

/// Register E's full assignment from its value.
pub fn decompose_e(val: u64) -> (r: RoundWordE)
    ensures
        r.wf(),
        r.value() == val,
{
    let w = assign_word_halves(val);
    RoundWordE {
        pieces: decompose_efgh(val),
        dense_halves: w.dense_halves,
        spread_halves: w.spread_halves,
    }
}

/// `E AND F`, read from the odd bits of the sums of their spread halves.
pub fn assign_ch(e: &RoundWordE, f: &RoundWord) -> (r: u64)
    requires
        e.wf(),
        f.wf(),
    ensures
        r == e.value() & f.value(),
{
    proof {
        lemma_halves_of_join(e.dense_halves.lo, e.dense_halves.hi);
        lemma_halves_of_join(f.dense_halves.lo, f.dense_halves.hi);
    }
    and_via_spread(
        e.spread_halves.lo,
        e.spread_halves.hi,
        f.spread_halves.lo,
        f.spread_halves.hi,
        Ghost(e.value()),
        Ghost(f.value()),
    )
}

/// `(NOT E) AND G`: the spread halves of E are complemented in spread form,
/// added to those of G, and the odd bits read back.
pub fn assign_ch_neg(e: &RoundWordE, g: &RoundWord) -> (r: u64)
    requires
        e.wf(),
        g.wf(),
    ensures
        r == !e.value() & g.value(),
{
    let ghost ev = e.value();
    proof {
        lemma_halves_of_join(e.dense_halves.lo, e.dense_halves.hi);
        lemma_halves_of_join(g.dense_halves.lo, g.dense_halves.hi);
        lemma_negate_spread(lo32(ev));
        lemma_negate_spread(hi32(ev));
        lemma_negate_spread_word(ev);
    }
    let neg_lo = negate_spread(e.spread_halves.lo);
    let neg_hi = negate_spread(e.spread_halves.hi);
    and_via_spread(
        neg_lo,
        neg_hi,
        g.spread_halves.lo,
        g.spread_halves.hi,
        Ghost(!ev),
        Ghost(g.value()),
    )
}

/// The outputs of the majority gate: the sums of the spread halves of A, B
/// and C, split into even bits (`A XOR B XOR C`) and odd bits (`Maj(A, B, C)`).
pub fn assign_maj(a: &RoundWordA, b: &RoundWord, c: &RoundWord) -> (o: SpreadOutputs)
    requires
        a.wf(),
        b.wf(),
        c.wf(),
    ensures
        join32(o.even_lo, o.even_hi) == a.value() ^ b.value() ^ c.value(),
        join32(o.odd_lo, o.odd_hi) == maj(a.value(), b.value(), c.value()),
{
    let ghost (x, y, z) = (a.value(), b.value(), c.value());
    proof {
        lemma_halves_of_join(a.dense_halves.lo, a.dense_halves.hi);
        lemma_halves_of_join(b.dense_halves.lo, b.dense_halves.hi);
        lemma_halves_of_join(c.dense_halves.lo, c.dense_halves.hi);
        lemma_spread_xor3_maj(lo32(x), lo32(y), lo32(z));
        lemma_spread_xor3_maj(hi32(x), hi32(y), hi32(z));
        lemma_join_xor3_maj(x, y, z);
    }
    let o = assign_spread_outputs(
        a.spread_halves.lo + b.spread_halves.lo + c.spread_halves.lo,
        a.spread_halves.hi + b.spread_halves.hi + c.spread_halves.hi,
    );
    o
}

/// `H' = H + Sigma_1(E) + (E AND F) + ((NOT E) AND G) + K + W` modulo 2^64,
/// with its carry, at most 5.
pub fn assign_h_prime(
    h: &RoundWordDense,
    sigma_1: u64,
    ch: u64,
    ch_neg: u64,
    k: u64,
    w: u64,
) -> (r: (u64, u64))
    ensures
        r.0 == mod64(
            h.value() as int + sigma_1 as int + ch as int + ch_neg as int + k as int + w as int,
        ),
        h.value() as int + sigma_1 as int + ch as int + ch_neg as int + k as int + w as int
            == r.0 as int + 0x1_0000_0000_0000_0000 * (r.1 as int),
        r.1 <= 5,
{
    let hv = (h.lo as u64) | ((h.hi as u64) << 32u64);
    let v = vec![hv, sigma_1, ch, ch_neg, k, w];
    proof {
        reveal_with_fuel(words_sum, 7);
        let s = v@;
        assert(s.drop_last().drop_last().drop_last().drop_last().drop_last().drop_last()
            =~= Seq::<u64>::empty());
        assert(s.drop_last().drop_last().drop_last().drop_last().drop_last() =~= seq![hv]);
        assert(s.drop_last().drop_last().drop_last().drop_last() =~= seq![hv, sigma_1]);
        assert(s.drop_last().drop_last().drop_last() =~= seq![hv, sigma_1, ch]);
        assert(s.drop_last().drop_last() =~= seq![hv, sigma_1, ch, ch_neg]);
        assert(s.drop_last() =~= seq![hv, sigma_1, ch, ch_neg, k]);
    }
    add_words(&v)
}

/// `E_new = D + H'` modulo 2^64, with its carry, at most 1.
pub fn assign_e_new(d: &RoundWordDense, h_prime: u64) -> (r: (u64, u64))
    ensures
        r.0 == mod64(d.value() as int + h_prime as int),
        d.value() as int + h_prime as int == r.0 as int + 0x1_0000_0000_0000_0000 * (r.1 as int),
        r.1 <= 1,
{
    let dv = (d.lo as u64) | ((d.hi as u64) << 32u64);
    let v = vec![dv, h_prime];
    proof {
        reveal_with_fuel(words_sum, 3);
        assert(v@.drop_last().drop_last() =~= Seq::<u64>::empty());
        assert(v@.drop_last() =~= seq![dv]);
    }
    add_words(&v)
}

/// `A_new = H' + Sigma_0(A) + Maj(A, B, C)` modulo 2^64, with its carry, at
/// most 2.
pub fn assign_a_new(h_prime: u64, sigma_0: u64, maj: u64) -> (r: (u64, u64))
    ensures
        r.0 == mod64(h_prime as int + sigma_0 as int + maj as int),
        h_prime as int + sigma_0 as int + maj as int == r.0 as int + 0x1_0000_0000_0000_0000 * (
        r.1 as int),
        r.1 <= 2,
{
    let v = vec![h_prime, sigma_0, maj];
    proof {
        reveal_with_fuel(words_sum, 4);
        assert(v@.drop_last().drop_last().drop_last() =~= Seq::<u64>::empty());
        assert(v@.drop_last().drop_last() =~= seq![h_prime]);
        assert(v@.drop_last() =~= seq![h_prime, sigma_0]);
    }
    add_words(&v)
}

/// A register of the state, in the form its role asks for.
#[derive(Debug, Copy, Clone)]
pub enum StateWord {
    A(RoundWordA),
    B(RoundWord),
    C(RoundWord),
    D(RoundWordDense),
    E(RoundWordE),
    F(RoundWord),
    G(RoundWord),
    H(RoundWordDense),
}

/// The value of a register.
pub open spec fn state_word_value(w: Option<StateWord>) -> u64 {
    match w {
        Some(StateWord::A(x)) => x.value(),
        Some(StateWord::B(x)) => x.value(),
        Some(StateWord::C(x)) => x.value(),
        Some(StateWord::D(x)) => x.value(),
        Some(StateWord::E(x)) => x.value(),
        Some(StateWord::F(x)) => x.value(),
        Some(StateWord::G(x)) => x.value(),
        Some(StateWord::H(x)) => x.value(),
        None => 0,
    }
}

/// The eight registers `A..H`.
#[derive(Debug, Copy, Clone)]
pub struct State {
    pub a: Option<StateWord>,
    pub b: Option<StateWord>,
    pub c: Option<StateWord>,
    pub d: Option<StateWord>,
    pub e: Option<StateWord>,
    pub f: Option<StateWord>,
    pub g: Option<StateWord>,
    pub h: Option<StateWord>,
}

impl State {
    /// Each register is present, in the form of its role, and consistent.
    pub open spec fn wf(&self) -> bool {
        &&& self.a matches Some(StateWord::A(x)) && x.wf()
        &&& self.b matches Some(StateWord::B(x)) && x.wf()
        &&& self.c matches Some(StateWord::C(x)) && x.wf()
        &&& self.d matches Some(StateWord::D(_))
        &&& self.e matches Some(StateWord::E(x)) && x.wf()
        &&& self.f matches Some(StateWord::F(x)) && x.wf()
        &&& self.g matches Some(StateWord::G(x)) && x.wf()
        &&& self.h matches Some(StateWord::H(_))
    }

    /// The values `(A, B, C, D, E, F, G, H)`.
    pub open spec fn value(&self) -> Seq<u64> {
        seq![
            state_word_value(self.a),
            state_word_value(self.b),
            state_word_value(self.c),
            state_word_value(self.d),
            state_word_value(self.e),
            state_word_value(self.f),
            state_word_value(self.g),
            state_word_value(self.h),
        ]
    }
}

/// Takes the registers out of a well-formed state.
pub fn match_state(state: State) -> (r: (
    RoundWordA,
    RoundWord,
    RoundWord,
    RoundWordDense,
    RoundWordE,
    RoundWord,
    RoundWord,
    RoundWordDense,
))
    requires
        state.wf(),
    ensures
        state.a == Some(StateWord::A(r.0)),
        state.b == Some(StateWord::B(r.1)),
        state.c == Some(StateWord::C(r.2)),
        state.d == Some(StateWord::D(r.3)),
        state.e == Some(StateWord::E(r.4)),
        state.f == Some(StateWord::F(r.5)),
        state.g == Some(StateWord::G(r.6)),
        state.h == Some(StateWord::H(r.7)),
{
    let a = match state.a {
        Some(StateWord::A(a)) => a,
        _ => unreached(),
    };
    let b = match state.b {
        Some(StateWord::B(b)) => b,
        _ => unreached(),
    };
    let c = match state.c {
        Some(StateWord::C(c)) => c,
        _ => unreached(),
    };
    let d = match state.d {
        Some(StateWord::D(d)) => d,
        _ => unreached(),
    };
    let e = match state.e {
        Some(StateWord::E(e)) => e,
        _ => unreached(),
    };
    let f = match state.f {
        Some(StateWord::F(f)) => f,
        _ => unreached(),
    };
    let g = match state.g {
        Some(StateWord::G(g)) => g,
        _ => unreached(),
    };
    let h = match state.h {
        Some(StateWord::H(h)) => h,
        _ => unreached(),
    };
    (a, b, c, d, e, f, g, h)
}

/// The state whose registers hold `words`, each in the form of its role.
pub fn state_from_words(words: &Vec<u64>) -> (r: State)
    requires
        words.len() == STATE,
    ensures
        r.wf(),
        r.value() == words@,
{
    let r = State {
        a: Some(StateWord::A(decompose_a(words[0]))),
        b: Some(StateWord::B(assign_word_halves(words[1]))),
        c: Some(StateWord::C(assign_word_halves(words[2]))),
        d: Some(StateWord::D(assign_word_halves_dense(words[3]))),
        e: Some(StateWord::E(decompose_e(words[4]))),
        f: Some(StateWord::F(assign_word_halves(words[5]))),
        g: Some(StateWord::G(assign_word_halves(words[6]))),
        h: Some(StateWord::H(assign_word_halves_dense(words[7]))),
    };
    assert(r.value() =~= words@);
    r
}

/// One compression round `round_idx` with scheduled word `w`: every cell of
/// the round is assigned (the pieces of A and E, the outputs of the sigma,
/// choice and majority gates, the three sums with their carries), then the
/// registers move down and the new A and E, read from the sums, are
/// decomposed. Returns the next state and the round's cells.
pub fn assign_round(state: State, round_idx: MainRoundIdx, w: u64) -> (r: (State, RoundWitness))
    requires
        state.wf(),
        round_idx.0 < ROUNDS,
    ensures
        r.0.wf(),
        r.0.value() == round_spec(state.value(), k_spec(round_idx.0 as u64), w),
        round_gates_hold(state.value(), k_spec(round_idx.0 as u64), w, r.1),
        r.0.value()[0] == join32(r.1.a_new.0, r.1.a_new.1),
        r.0.value()[4] == join32(r.1.e_new.0, r.1.e_new.1),
{
    let k = round_constant(round_idx.as_usize());
    let x = round_witness(&state, k, w);
    proof {
        lemma_round_gates_sound(state.value(), k, w, x);
    }
    let (a, b, c, _d, e, f, g, _h) = match_state(state);
    let a_new = (x.a_new.0 as u64) | ((x.a_new.1 as u64) << 32u64);
    let e_new = (x.e_new.0 as u64) | ((x.e_new.1 as u64) << 32u64);
    let r = State {
        a: Some(StateWord::A(decompose_a(a_new))),
        b: Some(
            StateWord::B(RoundWord { dense_halves: a.dense_halves,
                spread_halves: a.spread_halves }),
        ),
        c: Some(StateWord::C(b)),
        d: Some(StateWord::D(c.dense_halves)),
        e: Some(StateWord::E(decompose_e(e_new))),
        f: Some(
            StateWord::F(RoundWord { dense_halves: e.dense_halves,
                spread_halves: e.spread_halves }),
        ),
        g: Some(StateWord::G(f)),
        h: Some(StateWord::H(g.dense_halves)),
    };
    assert(r.value() =~= round_spec(state.value(), k_spec(round_idx.0 as u64), w));
    (r, x)
}

/// The words of the state, each put back together from its dense halves, as
/// the digest gate exposes them.
pub fn assign_digest(state: &State) -> (r: Vec<u64>)
    requires
        state.wf(),
    ensures
        r@ == state.value(),
{
    let (a, b, c, d, e, f, g, h) = match_state(*state);
    let r = vec![
        join_dense(&a.dense_halves),
        join_dense(&b.dense_halves),
        join_dense(&c.dense_halves),
        join_dense(&d),
        join_dense(&e.dense_halves),
        join_dense(&f.dense_halves),
        join_dense(&g.dense_halves),
        join_dense(&h),
    ];
    assert(r@ =~= state.value());
    r
}

/// The word of a pair of dense halves.
pub fn join_dense(w: &RoundWordDense) -> (r: u64)
    ensures
        r == w.value(),
{
    (w.lo as u64) | ((w.hi as u64) << 32u64)
}

/// The state loaded with the initial hash value.
pub fn initialize_with_iv() -> (r: State)
    ensures
        r.wf(),
        r.value() == iv_seq(),
{
    let mut words: Vec<u64> = Vec::new();
    let mut i: usize = 0;
    while i < STATE
        invariant
            i <= 8,
            words@.len() == i,
            forall|j: int| 0 <= j < i ==> words@[j] == iv_seq()[j],
        decreases 8 - i,
    {
        words.push(iv_word(i));
        i = i + 1;
    }
    assert(words@ =~= iv_seq());
    state_from_words(&words)
}

/// A new initial round loaded from the state that a previous block left.
pub fn initialize_with_state(init_state: &State) -> (r: State)
    requires
        init_state.wf(),
    ensures
        r.wf(),
        r.value() == init_state.value(),
{
    let words = assign_digest(init_state);
    state_from_words(&words)
}

/// `(a + b) mod 2^64`.
pub fn add_mod64(a: u64, b: u64) -> (r: u64)
    ensures
        r == mod64(a as int + b as int),
{
    ((a as u128 + b as u128) % 0x1_0000_0000_0000_0000u128) as u64
}

/// Compresses one 16-word block into the state: the message schedule, the 80
/// rounds, then the feed-forward addition of the incoming state.
pub fn compress(initialized_state: &State, input: &Vec<u64>) -> (r: State)
    requires
        initialized_state.wf(),
        input.len() == BLOCK_SIZE,
    ensures
        r.wf(),
        r.value() == compress_spec(initialized_state.value(), input@),
{
    let (w, _w_halves) = process(input);
    let mut state = *initialized_state;
    let mut i: usize = 0;
    while i < ROUNDS
        invariant
            i <= 80,
            w.len() == 80,
            forall|j: int| 0 <= j < 80 ==> w@[j] == schedule_word(input@, j as nat),
            state.wf(),
            state.value() == rounds_spec(initialized_state.value(), input@, i as nat),
        decreases 80 - i,
    {
        let (next, _cells) = assign_round(state, MainRoundIdx(i), w[i]);
        state = next;
        i = i + 1;
    }
    let before = assign_digest(initialized_state);
    let after = assign_digest(&state);
    let mut out: Vec<u64> = Vec::new();
    let mut j: usize = 0;
    while j < STATE
        invariant
            j <= 8,
            before@ == initialized_state.value(),
            after@ == rounds_spec(initialized_state.value(), input@, 80),
            out@.len() == j,
            forall|t: int|
                0 <= t < j ==> out@[t] == mod64(
                    initialized_state.value()[t] as int + rounds_spec(
                        initialized_state.value(),
                        input@,
                        80,
                    )[t] as int,
                ),
        decreases 8 - j,
    {
        out.push(add_mod64(before[j], after[j]));
        j = j + 1;
    }
    assert(out@ =~= compress_spec(initialized_state.value(), input@)) by {
        reveal(compress_spec);
    }
    state_from_words(&out)
}

} // verus!
