use sha512_halo2::bits::{negate_spread, spread_word, sum_with_carry};
use sha512_halo2::compression::{
    assign_digest, assign_round, decompose_abcd, decompose_efgh, initialize_with_iv,
    state_from_words,
};
use sha512_halo2::gates::{assign_spread_outputs, spread_sum_of_three, SpreadOutputs};
use sha512_halo2::layout::MainRoundIdx;
use sha512_halo2::reference::round_constant;
use sha512_halo2::round_gates::{check_round, round_witness, word_witness, RoundWitness};

fn halves(w: u64) -> (u32, u32) {
    (w as u32, (w >> 32) as u32)
}

fn spread_halves(w: u64) -> (u64, u64) {
    (spread_word(w as u32), spread_word((w >> 32) as u32))
}

fn outputs_for(x: u64, y: u64, z: u64) -> SpreadOutputs {
    let (r_0, r_1) = spread_sum_of_three(x, y, z);
    assign_spread_outputs(r_0, r_1)
}

fn witness(s: &[u64], k: u64, w: u64) -> RoundWitness {
    let (a, b, c, d, e, f, g, h) = (s[0], s[1], s[2], s[3], s[4], s[5], s[6], s[7]);
    let sigma_1 = outputs_for(e.rotate_right(14), e.rotate_right(18), e.rotate_right(41));
    let (se, sf, sg) = (spread_halves(e), spread_halves(f), spread_halves(g));
    let ch = assign_spread_outputs(se.0 + sf.0, se.1 + sf.1);
    let spread_neg_e = (negate_spread(se.0), negate_spread(se.1));
    let ch_neg = assign_spread_outputs(spread_neg_e.0 + sg.0, spread_neg_e.1 + sg.1);
    let sigma_0 = outputs_for(a.rotate_right(28), a.rotate_right(34), a.rotate_right(39));
    let maj = outputs_for(a, b, c);
    let (hp, hp_carry) = sum_with_carry(&vec![
        halves(h),
        (sigma_1.even_lo, sigma_1.even_hi),
        (ch.odd_lo, ch.odd_hi),
        (ch_neg.odd_lo, ch_neg.odd_hi),
        halves(k),
        halves(w),
    ]);
    let h_prime = halves(hp);
    let (en, en_carry) = sum_with_carry(&vec![h_prime, halves(d)]);
    let (an, an_carry) = sum_with_carry(&vec![
        (sigma_0.even_lo, sigma_0.even_hi),
        (maj.odd_lo, maj.odd_hi),
        h_prime,
    ]);
    RoundWitness {
        e_pieces: decompose_efgh(e),
        sigma_1,
        ch,
        spread_neg_e,
        ch_neg,
        a_pieces: decompose_abcd(a),
        sigma_0,
        maj,
        h_prime,
        h_prime_carry: hp_carry,
        e_new: halves(en),
        e_new_carry: en_carry,
        a_new: halves(an),
        a_new_carry: an_carry,
    }
}

#[test]
fn round_witness_meets_every_gate() {
    let state = initialize_with_iv();
    let s = assign_digest(&state);
    let (k, w) = (round_constant(0), 0x6162_6380_0000_0000u64);
    let x = witness(&s, k, w);
    assert!(check_round(&state, k, w, &x));
    let (next_state, cells) = assign_round(state, MainRoundIdx(0), w);
    assert!(check_round(&state, k, w, &cells));
    let next = assign_digest(&next_state);
    assert_eq!(x.a_new.0 as u64 | ((x.a_new.1 as u64) << 32), next[0]);
    assert_eq!(x.e_new.0 as u64 | ((x.e_new.1 as u64) << 32), next[4]);
}

#[test]
fn round_gates_reject_a_wrong_witness() {
    let words = vec![1u64, 2, 3, 4, 5, 6, 7, 8];
    let state = state_from_words(&words);
    let (k, w) = (round_constant(5), 0xdead_beef_cafe_f00du64);
    let x = witness(&words, k, w);
    assert!(check_round(&state, k, w, &x));
    let mut bad = x;
    bad.a_new.0 ^= 1;
    assert!(!check_round(&state, k, w, &bad));
    let mut bad = x;
    bad.h_prime_carry = 6;
    assert!(!check_round(&state, k, w, &bad));
    let mut bad = x;
    bad.spread_neg_e.0 = x.spread_neg_e.0 ^ 1;
    assert!(!check_round(&state, k, w, &bad));
    assert!(!check_round(&state, k ^ 1, w, &x));
}

#[test]
fn built_round_witness_matches_the_cells() {
    let words = vec![0x0123_4567_89ab_cdefu64, 2, 3, u64::MAX, 5, 0xdead_beef, 7, 8];
    let state = state_from_words(&words);
    let (k, w) = (round_constant(79), 0xfeed_face_0bad_f00du64);
    let built = round_witness(&state, k, w);
    assert!(check_round(&state, k, w, &built));
    let by_hand = witness(&words, k, w);
    assert_eq!(built.a_new, by_hand.a_new);
    assert_eq!(built.e_new, by_hand.e_new);
    assert_eq!(built.h_prime, by_hand.h_prime);
    assert_eq!(
        (built.h_prime_carry, built.e_new_carry, built.a_new_carry),
        (by_hand.h_prime_carry, by_hand.e_new_carry, by_hand.a_new_carry)
    );
}

#[test]
fn schedule_word_witness() {
    let (w_2, w_7, w_15, w_16) = (u64::MAX, u64::MAX - 1, 0xdead_beef_cafe_f00du64, u64::MAX);
    let x = word_witness(w_2, w_7, w_15, w_16);
    let sig0 = w_15.rotate_right(1) ^ w_15.rotate_right(8) ^ (w_15 >> 7);
    let sig1 = w_2.rotate_right(19) ^ w_2.rotate_right(61) ^ (w_2 >> 6);
    let expected = sig1.wrapping_add(w_7).wrapping_add(sig0).wrapping_add(w_16);
    assert_eq!(x.word.0 as u64 | ((x.word.1 as u64) << 32), expected);
    let total = sig1 as u128 + w_7 as u128 + sig0 as u128 + w_16 as u128;
    assert_eq!(x.carry as u128, total >> 64);
    assert_eq!(x.sigma_0.even_lo as u64 | ((x.sigma_0.even_hi as u64) << 32), sig0);
}
