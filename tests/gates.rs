use sha512_halo2::bits::{negate_spread, spread_word, sum_with_carry};
use sha512_halo2::compression::{decompose_abcd, decompose_efgh};
use sha512_halo2::constraints::{
    neg_check, range_check, s_a_new, s_decompose_abcd, s_decompose_efgh, s_digest, s_e_new,
    s_h_prime, s_word, spread_and_range, sum_gate,
};
use sha512_halo2::constraints::{s_ch, s_ch_neg, s_decompose_1, s_decompose_2, s_decompose_3, s_maj};
use sha512_halo2::gates::{assign_spread_outputs, spread_sum_of_three, SpreadOutputs};
use sha512_halo2::schedule::{
    assign_subregion1, assign_subregion2, assign_subregion3, decompose_subregion1_word,
    decompose_subregion3_word, decompose_word,
};
use sha512_halo2::sigma_gates::{
    s_lower_sigma_0, s_lower_sigma_0_v2, s_lower_sigma_1, s_lower_sigma_1_v2, s_upper_sigma_0,
    s_upper_sigma_1,
};

fn halves(w: u64) -> (u32, u32) {
    (w as u32, (w >> 32) as u32)
}

#[test]
fn range_gate() {
    assert!(range_check(0, 0, 3));
    assert!(range_check(3, 0, 3));
    assert!(!range_check(4, 0, 3));
    assert!(!range_check(1, 2, 5));
}

#[test]
fn short_piece_spread_gate() {
    assert!(spread_and_range(0b101, 0b10001, 3));
    assert!(!spread_and_range(0b101, 0b10001, 2));
    assert!(!spread_and_range(0b11, 0b11, 2));
    assert!(spread_and_range(0b11, 0b101, 2));
}

#[test]
fn modular_sum_gates() {
    let max = halves(u64::MAX);
    assert!(sum_gate(&vec![max, halves(1)], 0, 0, 1, 1));
    assert!(!sum_gate(&vec![max, halves(1)], 0, 0, 0, 1));
    assert!(!sum_gate(&vec![max, halves(1)], 0, 0, 1, 0));
    let (s, c) = sum_with_carry(&vec![max; 6]);
    assert_eq!(c, 5);
    let (lo, hi) = halves(s);
    assert!(s_h_prime((lo, hi), c, max, max, max, max, max, max));
    assert!(!s_h_prime((lo, hi), 4, max, max, max, max, max, max));
    assert!(s_a_new(halves(u64::MAX - 2), 2, max, max, max));
    assert!(s_e_new(halves(5), 0, halves(2), halves(3)));
    assert!(!s_e_new(halves(6), 0, halves(2), halves(3)));
    assert!(s_word(halves(10), 0, halves(1), halves(2), halves(3), halves(4)));
    assert!(s_word(halves(u64::MAX - 3), 3, max, max, max, max));
}

#[test]
fn digest_gate() {
    assert!(s_digest(0xcafe_f00d, 0xdead_beef, 0xdead_beef_cafe_f00d));
    assert!(!s_digest(0xdead_beef, 0xcafe_f00d, 0xdead_beef_cafe_f00d));
}

#[test]
fn decomposition_gates_accept_the_witness() {
    for w in [0u64, u64::MAX, 0x0123_4567_89ab_cdef] {
        let (lo, hi) = halves(w);
        let (s_lo, s_hi) = (spread_word(lo), spread_word(hi));
        assert!(s_decompose_abcd(&decompose_abcd(w), lo, hi, s_lo, s_hi));
        assert!(s_decompose_efgh(&decompose_efgh(w), lo, hi, s_lo, s_hi));
        assert!(!s_decompose_abcd(&decompose_abcd(w ^ 1), lo, hi, s_lo, s_hi));
        assert!(!s_decompose_abcd(&decompose_abcd(w), lo, hi, s_lo ^ 1, s_hi));
        assert!(!s_decompose_efgh(&decompose_efgh(w), lo, hi, s_lo, s_hi ^ 4));
        let mut bad = decompose_efgh(w);
        bad.b_lo = 4;
        assert!(!s_decompose_efgh(&bad, lo, hi, s_lo, s_hi));
        assert!(s_decompose_1(&decompose_subregion1_word(w, 1), lo, hi));
        assert!(s_decompose_2(&decompose_word(w, 14), lo, hi));
        assert!(s_decompose_3(&decompose_subregion3_word(w, 65), lo, hi));
        assert!(!s_decompose_3(&decompose_subregion3_word(w ^ (1 << 63), 65), lo, hi));
        let mut bad = decompose_word(w, 14);
        bad.g = 8;
        assert!(!s_decompose_2(&bad, lo, hi));
    }
}

#[test]
fn complement_gate() {
    let e = 0xdead_beefu32;
    let s = spread_word(e);
    assert!(neg_check((negate_spread(s), negate_spread(s)), (s, s)));
    assert!(!neg_check((s, s), (s, s)));
}

#[test]
fn schedule_subregions() {
    let mut w: Vec<u64> = (0..16u64).map(|i| i.wrapping_mul(0x0123_4567_89ab_cdef) ^ 0x5555).collect();
    let block = w.clone();
    let s0 = assign_subregion1(&w);
    assert_eq!(s0.len(), 13);
    assert_eq!(s0[0], w[1].rotate_right(1) ^ w[1].rotate_right(8) ^ (w[1] >> 7));
    let (s0_v2, s1_v2) = assign_subregion2(&s0, &mut w);
    assert_eq!(w.len(), 67);
    assert_eq!(s0_v2.len(), 51);
    assert_eq!(s1_v2[0], w[14].rotate_right(19) ^ w[14].rotate_right(61) ^ (w[14] >> 6));
    let s1 = assign_subregion3(&s0_v2, &mut w);
    assert_eq!(w.len(), 80);
    assert_eq!(s1.len(), 13);
    assert_eq!(s1[12], w[77].rotate_right(19) ^ w[77].rotate_right(61) ^ (w[77] >> 6));
    assert_eq!(&w[..16], &block[..]);
    let sig0 = |x: u64| x.rotate_right(1) ^ x.rotate_right(8) ^ (x >> 7);
    let sig1 = |x: u64| x.rotate_right(19) ^ x.rotate_right(61) ^ (x >> 6);
    for i in 16..80 {
        let v = sig1(w[i - 2]).wrapping_add(w[i - 7]).wrapping_add(sig0(w[i - 15])).wrapping_add(w[i - 16]);
        assert_eq!(w[i], v);
    }
}

fn outputs_for(x: u64, y: u64, z: u64) -> SpreadOutputs {
    let (r_0, r_1) = spread_sum_of_three(x, y, z);
    assign_spread_outputs(r_0, r_1)
}

#[test]
fn sigma_gates_accept_their_outputs() {
    for v in [0u64, u64::MAX, 0x0123_4567_89ab_cdef, 0xdead_beef_cafe_f00d] {
        let o = outputs_for(v.rotate_right(28), v.rotate_right(34), v.rotate_right(39));
        assert!(s_upper_sigma_0(&decompose_abcd(v), &o));
        assert_eq!(o.even_lo as u64 | ((o.even_hi as u64) << 32), v.rotate_right(28) ^ v.rotate_right(34) ^ v.rotate_right(39));
        let o = outputs_for(v.rotate_right(14), v.rotate_right(18), v.rotate_right(41));
        assert!(s_upper_sigma_1(&decompose_efgh(v), &o));
        let o = outputs_for(v.rotate_right(1), v.rotate_right(8), v >> 7);
        assert!(s_lower_sigma_0(&decompose_subregion1_word(v, 1), &o));
        assert!(s_lower_sigma_0_v2(&decompose_word(v, 14), &o));
        let o = outputs_for(v.rotate_right(19), v.rotate_right(61), v >> 6);
        assert!(s_lower_sigma_1_v2(&decompose_word(v, 14), &o));
        assert!(s_lower_sigma_1(&decompose_subregion3_word(v, 65), &o));
        let mut bad = o;
        bad.even_lo ^= 1;
        assert!(!s_lower_sigma_1(&decompose_subregion3_word(v, 65), &bad));
    }
}

#[test]
fn choice_and_majority_gates() {
    let (e, f, g) = (0x0123_4567_89ab_cdefu64, 0xfedc_ba98_7654_3210u64, 0xdead_beef_cafe_f00du64);
    let sp = |w: u64| (spread_word(w as u32), spread_word((w >> 32) as u32));
    let o = assign_spread_outputs(sp(e).0 + sp(f).0, sp(e).1 + sp(f).1);
    assert!(s_ch(sp(e), sp(f), &o));
    assert_eq!(o.odd_lo as u64 | ((o.odd_hi as u64) << 32), e & f);
    let neg = (negate_spread(sp(e).0), negate_spread(sp(e).1));
    let o = assign_spread_outputs(neg.0 + sp(g).0, neg.1 + sp(g).1);
    assert!(s_ch_neg(neg, sp(e), sp(g), &o));
    assert_eq!(o.odd_lo as u64 | ((o.odd_hi as u64) << 32), !e & g);
    assert!(!s_ch_neg(sp(g), sp(e), sp(g), &o));
    let o = outputs_for(e, f, g);
    assert!(s_maj(sp(e), sp(f), sp(g), &o));
    assert_eq!(o.odd_lo as u64 | ((o.odd_hi as u64) << 32), (e & f) ^ (e & g) ^ (f & g));
}
