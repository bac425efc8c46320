//! The message schedule: sixteen block words expanded into eighty, with the
//! lower sigmas computed from chunk decompositions in spread form.
use vstd::prelude::*;
use crate::bits::{hi32, lo32};
use crate::gates::{add_words, words_sum, xor_via_spread};
use crate::reference::{mod64, rotr, schedule_word, small_sigma_0, small_sigma_1, BLOCK_SIZE,
    ROUNDS};

verus! {

/// A word of subregion 1 (`W_1..W_13`), cut into `(1, 6, 1, 56)`-bit chunks,
/// the 56-bit chunk in four 14-bit pieces for the lookup.
#[derive(Debug, Copy, Clone)]
pub struct Subregion1Word {
    pub index: usize,
    pub a: u64,
    pub b: u64,
    pub c: u64,
    pub d_lo_lo: u64,
    pub d_lo_hi: u64,
    pub d_hi_lo: u64,
    pub d_hi_hi: u64,
}

impl Subregion1Word {
    /// Every chunk fits its width.
    pub open spec fn wf(&self) -> bool {
        self.a < 2 && self.b < 64 && self.c < 2 && self.d_lo_lo < 0x4000 && self.d_lo_hi < 0x4000
            && self.d_hi_lo < 0x4000 && self.d_hi_hi < 0x4000
    }

    /// The word that the chunks reconstruct.
    pub open spec fn value(&self) -> u64 {
        self.a | (self.b << 1u64) | (self.c << 7u64) | (self.d_lo_lo << 8u64) | (self.d_lo_hi
            << 22u64) | (self.d_hi_lo << 36u64) | (self.d_hi_hi << 50u64)
    }

    /// sigma 0 of the word: `SHR 7`, `ROTR 1` and `ROTR 8` laid out from the
    /// chunks, then XORed through their spread forms.
    pub fn xor_lower_sigma_0(&self) -> (r: u64)
        requires
            self.wf(),
        ensures
            r == small_sigma_0(self.value()),
    {
        let (a, b, c) = (self.a, self.b, self.c);
        let d = self.d_lo_lo | (self.d_lo_hi << 14u64) | (self.d_hi_lo << 28u64) | (self.d_hi_hi
            << 42u64);
        let shr_7 = c | (d << 1u64);
        let rot_1 = b | (c << 6u64) | (d << 7u64) | (a << 63u64);
        let rot_8 = d | (a << 56u64) | (b << 57u64) | (c << 63u64);
        let (dll, dlh, dhl, dhh) = (self.d_lo_lo, self.d_lo_hi, self.d_hi_lo, self.d_hi_hi);
        let ghost x = self.value();
        assert(shr_7 == x >> 7u64 && rot_1 == rotr(x, 1) && rot_8 == rotr(x, 8)) by (bit_vector)
            requires
                a < 2 && b < 64 && c < 2 && dll < 0x4000 && dlh < 0x4000 && dhl < 0x4000 && dhh
                    < 0x4000,
                d == dll | (dlh << 14u64) | (dhl << 28u64) | (dhh << 42u64),
                x == a | (b << 1u64) | (c << 7u64) | (dll << 8u64) | (dlh << 22u64) | (dhl
                    << 36u64) | (dhh << 50u64),
                shr_7 == c | (d << 1u64),
                rot_1 == b | (c << 6u64) | (d << 7u64) | (a << 63u64),
                rot_8 == d | (a << 56u64) | (b << 57u64) | (c << 63u64),
        ;
        xor_via_spread(rot_1, rot_8, shr_7)
    }
}

/// Cuts word `index` into the chunks of subregion 1.
pub fn decompose_subregion1_word(word: u64, index: usize) -> (r: Subregion1Word)
    ensures
        r.wf(),
        r.value() == word,
        r.index == index,
{
    let a = word & 1;
    let b = (word >> 1u64) & 0x3F;
    let c = (word >> 7u64) & 1;
    let d_lo_lo = (word >> 8u64) & 0x3FFF;
    let d_lo_hi = (word >> 22u64) & 0x3FFF;
    let d_hi_lo = (word >> 36u64) & 0x3FFF;
    let d_hi_hi = (word >> 50u64) & 0x3FFF;
    assert(a < 2 && b < 64 && c < 2 && d_lo_lo < 0x4000 && d_lo_hi < 0x4000
        && d_hi_lo < 0x4000 && d_hi_hi < 0x4000 && (a | (b << 1u64) | (c << 7u64)
        | (d_lo_lo << 8u64) | (d_lo_hi << 22u64) | (d_hi_lo << 36u64)
        | (d_hi_hi << 50u64)) == word) by (bit_vector)
        requires
            a == word & 1,
            b == (word >> 1u64) & 0x3F,
            c == (word >> 7u64) & 1,
            d_lo_lo == (word >> 8u64) & 0x3FFF,
            d_lo_hi == (word >> 22u64) & 0x3FFF,
            d_hi_lo == (word >> 36u64) & 0x3FFF,
            d_hi_hi == (word >> 50u64) & 0x3FFF,
    ;
    Subregion1Word { index, a, b, c, d_lo_lo, d_lo_hi, d_hi_lo, d_hi_hi }
}

/// A word of subregion 2 (`W_14..W_64`), cut into `(1, 5, 1, 1, 11, 42, 3)`-bit
/// chunks, the 42-bit chunk in three 14-bit pieces; this chunking places both
/// sigma 0's and sigma 1's offsets at chunk boundaries.
#[derive(Debug, Copy, Clone)]
pub struct Subregion2Word {
    pub index: usize,
    pub a: u64,
    pub b: u64,
    pub c: u64,
    pub d: u64,
    pub e: u64,
    pub f_lo: u64,
    pub f_mid: u64,
    pub f_hi: u64,
    pub g: u64,
}

impl Subregion2Word {
    /// Every chunk fits its width.
    pub open spec fn wf(&self) -> bool {
        self.a < 2 && self.b < 32 && self.c < 2 && self.d < 2 && self.e < 0x800 && self.f_lo
            < 0x4000 && self.f_mid < 0x4000 && self.f_hi < 0x4000 && self.g < 8
    }

    /// The word that the chunks reconstruct.
    pub open spec fn value(&self) -> u64 {
        self.a | (self.b << 1u64) | (self.c << 6u64) | (self.d << 7u64) | (self.e << 8u64) | (
        self.f_lo << 19u64) | (self.f_mid << 33u64) | (self.f_hi << 47u64) | (self.g << 61u64)
    }

    /// sigma 0 of the word: `SHR 7`, `ROTR 1` and `ROTR 8` from the chunks.
    pub fn xor_sigma_0(&self) -> (r: u64)
        requires
            self.wf(),
        ensures
            r == small_sigma_0(self.value()),
    {
        let (a, b, c, d, e, g) = (self.a, self.b, self.c, self.d, self.e, self.g);
        let (fl, fm, fh) = (self.f_lo, self.f_mid, self.f_hi);
        let f = fl | (fm << 14u64) | (fh << 28u64);
        let shr_7 = d | (e << 1u64) | (f << 12u64) | (g << 54u64);
        let rot_1 = b | (c << 5u64) | (d << 6u64) | (e << 7u64) | (f << 18u64) | (g << 60u64) | (a
            << 63u64);
        let rot_8 = e | (f << 11u64) | (g << 53u64) | (a << 56u64) | (b << 57u64) | (c << 62u64)
            | (d << 63u64);
        let ghost x = self.value();
        assert(shr_7 == x >> 7u64 && rot_1 == rotr(x, 1) && rot_8 == rotr(x, 8)) by (bit_vector)
            requires
                a < 2 && b < 32 && c < 2 && d < 2 && e < 0x800 && fl < 0x4000 && fm < 0x4000 && fh
                    < 0x4000 && g < 8,
                f == fl | (fm << 14u64) | (fh << 28u64),
                x == a | (b << 1u64) | (c << 6u64) | (d << 7u64) | (e << 8u64) | (fl << 19u64) | (
                fm << 33u64) | (fh << 47u64) | (g << 61u64),
                shr_7 == d | (e << 1u64) | (f << 12u64) | (g << 54u64),
                rot_1 == b | (c << 5u64) | (d << 6u64) | (e << 7u64) | (f << 18u64) | (g << 60u64)
                    | (a << 63u64),
                rot_8 == e | (f << 11u64) | (g << 53u64) | (a << 56u64) | (b << 57u64) | (c
                    << 62u64) | (d << 63u64),
        ;
        xor_via_spread(rot_1, rot_8, shr_7)
    }

    /// sigma 1 of the word: `SHR 6`, `ROTR 19` and `ROTR 61` from the chunks.
    pub fn xor_sigma_1(&self) -> (r: u64)
        requires
            self.wf(),
        ensures
            r == small_sigma_1(self.value()),
    {
        let (a, b, c, d, e, g) = (self.a, self.b, self.c, self.d, self.e, self.g);
        let (fl, fm, fh) = (self.f_lo, self.f_mid, self.f_hi);
        let f = fl | (fm << 14u64) | (fh << 28u64);
        let shr_6 = c | (d << 1u64) | (e << 2u64) | (f << 13u64) | (g << 55u64);
        let rot_19 = f | (g << 42u64) | (a << 45u64) | (b << 46u64) | (c << 51u64) | (d << 52u64)
            | (e << 53u64);
        let rot_61 = g | (a << 3u64) | (b << 4u64) | (c << 9u64) | (d << 10u64) | (e << 11u64) | (f
            << 22u64);
        let ghost x = self.value();
        assert(shr_6 == x >> 6u64 && rot_19 == rotr(x, 19) && rot_61 == rotr(x, 61))
            by (bit_vector)
            requires
                a < 2 && b < 32 && c < 2 && d < 2 && e < 0x800 && fl < 0x4000 && fm < 0x4000 && fh
                    < 0x4000 && g < 8,
                f == fl | (fm << 14u64) | (fh << 28u64),
                x == a | (b << 1u64) | (c << 6u64) | (d << 7u64) | (e << 8u64) | (fl << 19u64) | (
                fm << 33u64) | (fh << 47u64) | (g << 61u64),
                shr_6 == c | (d << 1u64) | (e << 2u64) | (f << 13u64) | (g << 55u64),
                rot_19 == f | (g << 42u64) | (a << 45u64) | (b << 46u64) | (c << 51u64) | (d
                    << 52u64) | (e << 53u64),
                rot_61 == g | (a << 3u64) | (b << 4u64) | (c << 9u64) | (d << 10u64) | (e << 11u64)
                    | (f << 22u64),
        ;
        xor_via_spread(rot_19, rot_61, shr_6)
    }
}

/// Cuts word `index` into the chunks of subregion 2.
pub fn decompose_word(word: u64, index: usize) -> (r: Subregion2Word)
    ensures
        r.wf(),
        r.value() == word,
        r.index == index,
{
    let a = word & 1;
    let b = (word >> 1u64) & 0x1F;
    let c = (word >> 6u64) & 1;
    let d = (word >> 7u64) & 1;
    let e = (word >> 8u64) & 0x7FF;
    let f_lo = (word >> 19u64) & 0x3FFF;
    let f_mid = (word >> 33u64) & 0x3FFF;
    let f_hi = (word >> 47u64) & 0x3FFF;
    let g = word >> 61u64;
    assert(a < 2 && b < 32 && c < 2 && d < 2 && e < 0x800 && f_lo < 0x4000 && f_mid < 0x4000
        && f_hi < 0x4000 && g < 8 && (a | (b << 1u64) | (c << 6u64) | (d << 7u64) | (e << 8u64)
        | (f_lo << 19u64) | (f_mid << 33u64) | (f_hi << 47u64)
        | (g << 61u64)) == word) by (bit_vector)
        requires
            a == word & 1,
            b == (word >> 1u64) & 0x1F,
            c == (word >> 6u64) & 1,
            d == (word >> 7u64) & 1,
            e == (word >> 8u64) & 0x7FF,
            f_lo == (word >> 19u64) & 0x3FFF,
            f_mid == (word >> 33u64) & 0x3FFF,
            f_hi == (word >> 47u64) & 0x3FFF,
            g == word >> 61u64,
    ;
    Subregion2Word { index, a, b, c, d, e, f_lo, f_mid, f_hi, g }
}

/// A word of subregion 3 (`W_65..W_77`), cut into `(6, 13, 42, 3)`-bit chunks,
/// the 42-bit chunk in pieces of 11, 10, 11 and 10 bits.
#[derive(Debug, Copy, Clone)]
pub struct Subregion3Word {
    pub index: usize,
    pub a: u64,
    pub b: u64,
    pub c_lo_lo: u64,
    pub c_lo_hi: u64,
    pub c_hi_lo: u64,
    pub c_hi_hi: u64,
    pub d: u64,
}

impl Subregion3Word {
    /// Every chunk fits its width.
    pub open spec fn wf(&self) -> bool {
        self.a < 64 && self.b < 0x2000 && self.c_lo_lo < 0x800 && self.c_lo_hi < 0x400
            && self.c_hi_lo < 0x800 && self.c_hi_hi < 0x400 && self.d < 8
    }

    /// The word that the chunks reconstruct.
    pub open spec fn value(&self) -> u64 {
        self.a | (self.b << 6u64) | (self.c_lo_lo << 19u64) | (self.c_lo_hi << 30u64) | (
        self.c_hi_lo << 40u64) | (self.c_hi_hi << 51u64) | (self.d << 61u64)
    }

    /// sigma 1 of the word: `SHR 6`, `ROTR 19` and `ROTR 61` from the chunks.
    pub fn xor_lower_sigma_1(&self) -> (r: u64)
        requires
            self.wf(),
        ensures
            r == small_sigma_1(self.value()),
    {
        let (a, b, d) = (self.a, self.b, self.d);
        let (cll, clh, chl, chh) = (self.c_lo_lo, self.c_lo_hi, self.c_hi_lo, self.c_hi_hi);
        let c = cll | (clh << 11u64) | (chl << 21u64) | (chh << 32u64);
        let shr_6 = b | (c << 13u64) | (d << 55u64);
        let rot_19 = c | (d << 42u64) | (a << 45u64) | (b << 51u64);
        let rot_61 = d | (a << 3u64) | (b << 9u64) | (c << 22u64);
        let ghost x = self.value();
        assert(shr_6 == x >> 6u64 && rot_19 == rotr(x, 19) && rot_61 == rotr(x, 61))
            by (bit_vector)
            requires
                a < 64 && b < 0x2000 && cll < 0x800 && clh < 0x400 && chl < 0x800 && chh < 0x400
                    && d < 8,
                c == cll | (clh << 11u64) | (chl << 21u64) | (chh << 32u64),
                x == a | (b << 6u64) | (cll << 19u64) | (clh << 30u64) | (chl << 40u64) | (chh
                    << 51u64) | (d << 61u64),
                shr_6 == b | (c << 13u64) | (d << 55u64),
                rot_19 == c | (d << 42u64) | (a << 45u64) | (b << 51u64),
                rot_61 == d | (a << 3u64) | (b << 9u64) | (c << 22u64),
        ;
        xor_via_spread(rot_19, rot_61, shr_6)
    }
}

/// Cuts word `index` into the chunks of subregion 3.
pub fn decompose_subregion3_word(word: u64, index: usize) -> (r: Subregion3Word)
    ensures
        r.wf(),
        r.value() == word,
        r.index == index,
{
    let a = word & 0x3F;
    let b = (word >> 6u64) & 0x1FFF;
    let c_lo_lo = (word >> 19u64) & 0x7FF;
    let c_lo_hi = (word >> 30u64) & 0x3FF;
    let c_hi_lo = (word >> 40u64) & 0x7FF;
    let c_hi_hi = (word >> 51u64) & 0x3FF;
    let d = word >> 61u64;
    assert(a < 64 && b < 0x2000 && c_lo_lo < 0x800 && c_lo_hi < 0x400 && c_hi_lo < 0x800
        && c_hi_hi < 0x400 && d < 8 && (a | (b << 6u64) | (c_lo_lo << 19u64)
        | (c_lo_hi << 30u64) | (c_hi_lo << 40u64) | (c_hi_hi << 51u64)
        | (d << 61u64)) == word) by (bit_vector)
        requires
            a == word & 0x3F,
            b == (word >> 6u64) & 0x1FFF,
            c_lo_lo == (word >> 19u64) & 0x7FF,
            c_lo_hi == (word >> 30u64) & 0x3FF,
            c_hi_lo == (word >> 40u64) & 0x7FF,
            c_hi_hi == (word >> 51u64) & 0x3FF,
            d == word >> 61u64,
    ;
    Subregion3Word { index, a, b, c_lo_lo, c_lo_hi, c_hi_lo, c_hi_hi, d }
}

/// sigma 0 of scheduled word `index` (`1..=64`), through the decomposition of
/// its subregion.
pub fn lower_sigma_0(word: u64, index: usize) -> (r: u64)
    requires
        1 <= index <= 64,
    ensures
        r == small_sigma_0(word),
{
    if index <= 13 {
        decompose_subregion1_word(word, index).xor_lower_sigma_0()
    } else {
        decompose_word(word, index).xor_sigma_0()
    }
}

/// sigma 1 of scheduled word `index` (`14..=77`), through the decomposition of
/// its subregion.
pub fn lower_sigma_1(word: u64, index: usize) -> (r: u64)
    requires
        14 <= index <= 77,
    ensures
        r == small_sigma_1(word),
{
    if index <= 64 {
        decompose_word(word, index).xor_sigma_1()
    } else {
        decompose_subregion3_word(word, index).xor_lower_sigma_1()
    }
}

/// The new word `sigma_1 + W_{i-7} + sigma_0 + W_{i-16}` modulo 2^64, with the
/// carry of the four-operand sum, which is at most 3.
pub fn new_word(sigma_1: u64, w_7: u64, sigma_0: u64, w_16: u64) -> (r: (u64, u64))
    ensures
        r.0 == mod64(sigma_1 as int + w_7 as int + sigma_0 as int + w_16 as int),
        r.1 <= 3,
        sigma_1 as int + w_7 as int + sigma_0 as int + w_16 as int == r.0 as int
            + 0x1_0000_0000_0000_0000 * (r.1 as int),
{
    let v = vec![sigma_1, w_7, sigma_0, w_16];
    proof {
        reveal_with_fuel(words_sum, 5);
        assert(v@.drop_last().drop_last().drop_last().drop_last() =~= Seq::<u64>::empty());
        assert(v@.drop_last().drop_last().drop_last() =~= seq![sigma_1]);
        assert(v@.drop_last().drop_last() =~= seq![sigma_1, w_7]);
        assert(v@.drop_last() =~= seq![sigma_1, w_7, sigma_0]);
    }
    add_words(&v)
}

/// Subregion 1: sigma 0 of `W_1..W_13`, each through its `(1, 6, 1, 56)`-bit
/// decomposition; entry `j` belongs to `W_{j + 1}`.
pub fn assign_subregion1(input: &Vec<u64>) -> (r: Vec<u64>)
    requires
        input.len() == BLOCK_SIZE,
    ensures
        r.len() == 13,
        forall|j: int| 0 <= j < 13 ==> r@[j] == small_sigma_0(input@[j + 1]),
{
    let mut r: Vec<u64> = Vec::new();
    let mut idx: usize = 1;
    while idx <= 13
        invariant
            1 <= idx <= 14,
            input.len() == 16,
            r.len() == idx - 1,
            forall|j: int| 0 <= j < idx - 1 ==> r@[j] == small_sigma_0(input@[j + 1]),
        decreases 14 - idx,
    {
        let word = decompose_subregion1_word(input[idx], idx);
        r.push(word.xor_lower_sigma_0());
        idx = idx + 1;
    }
    r
}

/// Subregion 2: for each `W_j`, `j` in `14..=64`, sigma 0 and sigma 1 through
/// its `(1, 5, 1, 1, 11, 42, 3)`-bit decomposition, then the new word
/// `W_{j + 2}`. Takes the 16 block words in `w` and leaves `W_0..W_66` there;
/// returns the sigma 0 and sigma 1 outputs, entry `j` belonging to `W_{j + 14}`.
pub fn assign_subregion2(lower_sigma_0_output: &Vec<u64>, w: &mut Vec<u64>) -> (r: (
    Vec<u64>,
    Vec<u64>,
))
    requires
        old(w).len() == BLOCK_SIZE,
        lower_sigma_0_output.len() == 13,
        forall|j: int|
            0 <= j < 13 ==> lower_sigma_0_output@[j] == small_sigma_0(old(w)@[j + 1]),
    ensures
        final(w).len() == 67,
        forall|j: int|
            0 <= j < 67 ==> final(w)@[j] == schedule_word(old(w)@, j as nat),
        r.0.len() == 51,
        r.1.len() == 51,
        forall|j: int| 0 <= j < 51 ==> r.0@[j] == small_sigma_0(final(w)@[j + 14]),
        forall|j: int| 0 <= j < 51 ==> r.1@[j] == small_sigma_1(final(w)@[j + 14]),
{
    let ghost block = w@;
    assert forall|j: int| 0 <= j < 16 implies w@[j] == schedule_word(block, j as nat) by {}
    let mut sigma_0_v2: Vec<u64> = Vec::new();
    let mut sigma_1_v2: Vec<u64> = Vec::new();
    let mut idx: usize = 14;
    while idx <= 64
        invariant
            14 <= idx <= 65,
            block.len() == 16,
            w.len() == idx + 2,
            forall|j: int| 0 <= j < idx + 2 ==> w@[j] == schedule_word(block, j as nat),
            lower_sigma_0_output.len() == 13,
            forall|j: int| 0 <= j < 13 ==> lower_sigma_0_output@[j] == small_sigma_0(block[j + 1]),
            sigma_0_v2.len() == idx - 14,
            sigma_1_v2.len() == idx - 14,
            forall|j: int| 0 <= j < idx - 14 ==> sigma_0_v2@[j] == small_sigma_0(w@[j + 14]),
            forall|j: int| 0 <= j < idx - 14 ==> sigma_1_v2@[j] == small_sigma_1(w@[j + 14]),
        decreases 65 - idx,
    {
        let word = decompose_word(w[idx], idx);
        sigma_0_v2.push(word.xor_sigma_0());
        sigma_1_v2.push(word.xor_sigma_1());
        let new_word_idx = idx + 2;
        let sigma_0 = if new_word_idx - 15 <= 13 {
            lower_sigma_0_output[new_word_idx - 16]
        } else {
            sigma_0_v2[new_word_idx - 15 - 14]
        };
        proof {
            let k = new_word_idx - 15;
            if k <= 13 {
                assert(schedule_word(block, k as nat) == block[k as int]);
                assert(sigma_0 == small_sigma_0(w@[k as int]));
            }
            assert(sigma_0 == small_sigma_0(schedule_word(block, k as nat)));
        }
        let (next, _carry) = new_word(
            sigma_1_v2[new_word_idx - 16],
            w[new_word_idx - 7],
            sigma_0,
            w[new_word_idx - 16],
        );
        w.push(next);
        assert(w@[new_word_idx as int] == schedule_word(block, new_word_idx as nat));
        idx = idx + 1;
    }
    (sigma_0_v2, sigma_1_v2)
}

/// Subregion 3: for each `W_j`, `j` in `65..=77`, sigma 1 through its
/// `(6, 13, 42, 3)`-bit decomposition, then the new word `W_{j + 2}`. Takes
/// `W_0..W_66` in `w` and leaves `W_0..W_79` there; returns the sigma 1
/// outputs, entry `j` belonging to `W_{j + 65}`.
pub fn assign_subregion3(lower_sigma_0_v2_output: &Vec<u64>, w: &mut Vec<u64>) -> (r: Vec<u64>)
    requires
        old(w).len() == 67,
        forall|j: int|
            0 <= j < 67 ==> old(w)@[j] == schedule_word(old(w)@.subrange(0, 16), j as nat),
        lower_sigma_0_v2_output.len() == 51,
        forall|j: int|
            0 <= j < 51 ==> lower_sigma_0_v2_output@[j] == small_sigma_0(old(w)@[j + 14]),
    ensures
        final(w).len() == ROUNDS,
        forall|j: int|
            0 <= j < 80 ==> final(w)@[j] == schedule_word(old(w)@.subrange(0, 16), j as nat),
        r.len() == 13,
        forall|j: int| 0 <= j < 13 ==> r@[j] == small_sigma_1(final(w)@[j + 65]),
{
    let ghost block = w@.subrange(0, 16);
    let ghost start = w@;
    let mut sigma_1_v1: Vec<u64> = Vec::new();
    let mut idx: usize = 65;
    while idx <= 77
        invariant
            65 <= idx <= 78,
            block.len() == 16,
            start.len() == 67,
            w.len() == idx + 2,
            forall|j: int| 0 <= j < 67 ==> w@[j] == start[j],
            forall|j: int| 0 <= j < idx + 2 ==> w@[j] == schedule_word(block, j as nat),
            lower_sigma_0_v2_output.len() == 51,
            forall|j: int| 0 <= j < 51 ==> lower_sigma_0_v2_output@[j] == small_sigma_0(start[j
                + 14]),
            sigma_1_v1.len() == idx - 65,
            forall|j: int| 0 <= j < idx - 65 ==> sigma_1_v1@[j] == small_sigma_1(w@[j + 65]),
        decreases 78 - idx,
    {
        let word = decompose_subregion3_word(w[idx], idx);
        sigma_1_v1.push(word.xor_lower_sigma_1());
        let new_word_idx = idx + 2;
        let (next, _carry) = new_word(
            sigma_1_v1[new_word_idx - 2 - 65],
            w[new_word_idx - 7],
            lower_sigma_0_v2_output[new_word_idx - 15 - 14],
            w[new_word_idx - 16],
        );
        w.push(next);
        idx = idx + 1;
    }
    sigma_1_v1
}

/// Expands a 16-word block into the 80 scheduled words `W_0..W_79`: the block
/// words, then subregions 1, 2 and 3 in turn. Returns the words and their
/// 32-bit halves, which the compression rounds read.
pub fn process(block: &Vec<u64>) -> (r: (Vec<u64>, Vec<(u32, u32)>))
    requires
        block.len() == BLOCK_SIZE,
    ensures
        r.0.len() == ROUNDS,
        forall|i: int| 0 <= i < 80 ==> r.0@[i] == schedule_word(block@, i as nat),
        r.1.len() == ROUNDS,
        forall|i: int| 0 <= i < 80 ==> r.1@[i] == (lo32(r.0@[i]), hi32(r.0@[i])),
{
    let mut w: Vec<u64> = Vec::new();
    let mut i: usize = 0;
    while i < BLOCK_SIZE
        invariant
            i <= 16,
            block.len() == 16,
            w@ == block@.subrange(0, i as int),
        decreases 16 - i,
    {
        w.push(block[i]);
        i = i + 1;
        assert(w@ =~= block@.subrange(0, i as int));
    }
    assert(w@ =~= block@);
    let lower_sigma_0_output = assign_subregion1(&w);
    let (lower_sigma_0_v2_output, _lower_sigma_1_v2_output) = assign_subregion2(
        &lower_sigma_0_output,
        &mut w,
    );
    assert(w@.subrange(0, 16) =~= block@);
    let _lower_sigma_1_output = assign_subregion3(&lower_sigma_0_v2_output, &mut w);
    let halves = assign_word_and_halves(&w);
    (w, halves)
}

/// The 32-bit halves `(lo, hi)` of each word.
pub fn assign_word_and_halves(words: &Vec<u64>) -> (r: Vec<(u32, u32)>)
    ensures
        r.len() == words.len(),
        forall|i: int| 0 <= i < words.len() ==> r@[i] == (lo32(words@[i]), hi32(words@[i])),
{
    let mut r: Vec<(u32, u32)> = Vec::new();
    let mut i: usize = 0;
    while i < words.len()
        invariant
            i <= words.len(),
            r.len() == i,
            forall|j: int| 0 <= j < i ==> r@[j] == (lo32(words@[j]), hi32(words@[j])),
        decreases words.len() - i,
    {
        r.push(((words[i] & 0xFFFF_FFFFu64) as u32, (words[i] >> 32u64) as u32));
        i = i + 1;
    }
    r
}

} // verus!
