use sha512_halo2::compression::{
    assign_digest, compress, decompose_abcd, decompose_efgh, initialize_with_iv,
    initialize_with_state, match_state, state_from_words, assign_round,
};
use sha512_halo2::layout::{
    get_a_new_row, get_ch_neg_row, get_ch_row, get_d_row, get_decompose_a_row,
    get_decompose_b_row, get_decompose_c_row, get_decompose_e_row, get_decompose_f_row,
    get_decompose_g_row, get_digest_abcd_row, get_digest_efgh_row, get_e_new_row, get_h_prime_row,
    get_h_row, get_maj_row, get_round_row, get_upper_sigma_0_row, get_upper_sigma_1_row,
    get_word_row, InitialRound, MainRoundIdx, RoundIdx,
};
use sha512_halo2::bits::spread_word;
use sha512_halo2::reference::round_constant;
use sha512_halo2::schedule::{
    decompose_subregion1_word, decompose_subregion3_word, decompose_word, lower_sigma_0,
    lower_sigma_1, new_word, process,
};

fn abc_block() -> Vec<u64> {
    let mut block = vec![0u64; 16];
    block[0] = 0x6162_6380_0000_0000;
    block[15] = 24;
    block
}

fn plain_sigma_0(x: u64) -> u64 {
    x.rotate_right(1) ^ x.rotate_right(8) ^ (x >> 7)
}

fn plain_sigma_1(x: u64) -> u64 {
    x.rotate_right(19) ^ x.rotate_right(61) ^ (x >> 6)
}

fn plain_schedule(block: &[u64]) -> Vec<u64> {
    let mut w = block.to_vec();
    for i in 16..80 {
        let v = plain_sigma_1(w[i - 2])
            .wrapping_add(w[i - 7])
            .wrapping_add(plain_sigma_0(w[i - 15]))
            .wrapping_add(w[i - 16]);
        w.push(v);
    }
    w
}

const SAMPLES: [u64; 5] = [0, u64::MAX, 0x0123_4567_89ab_cdef, 0x8000_0000_0000_0001, 0xdead_beef_cafe_f00d];

#[test]
fn word_rows() {
    assert_eq!(get_word_row(0), 0);
    assert_eq!(get_word_row(1), 6);
    assert_eq!(get_word_row(13), 174);
    assert_eq!(get_word_row(14), 189);
    assert_eq!(get_word_row(64), 1289);
    assert_eq!(get_word_row(65), 1310);
    assert_eq!(get_word_row(77), 1478);
    assert_eq!(get_word_row(78), 1492);
    assert_eq!(get_word_row(79), 1498);
}

#[test]
fn round_rows() {
    let r0 = MainRoundIdx(0);
    assert_eq!(get_round_row(RoundIdx::Init), 0);
    assert_eq!(get_round_row(RoundIdx::Main(MainRoundIdx(1))), 54);
    assert_eq!(get_round_row(RoundIdx::Main(MainRoundIdx(79))), 79 * 54);
    assert_eq!(get_decompose_e_row(RoundIdx::Main(r0)), 0);
    assert_eq!(get_upper_sigma_1_row(r0), 6);
    assert_eq!(get_ch_row(r0), 15);
    assert_eq!(get_ch_neg_row(r0), 24);
    assert_eq!(get_decompose_a_row(RoundIdx::Main(r0)), 32);
    assert_eq!(get_upper_sigma_0_row(r0), 37);
    assert_eq!(get_maj_row(r0), 46);
    assert_eq!(get_h_row(RoundIdx::Main(r0)), 14);
    assert_eq!(get_h_prime_row(r0), 15);
    assert_eq!(get_d_row(RoundIdx::Main(r0)), 17);
    assert_eq!(get_e_new_row(r0), 17);
    assert_eq!(get_a_new_row(r0), 46);
    assert_eq!(get_ch_row(MainRoundIdx(2)), 2 * 54 + 15);
    assert_eq!(MainRoundIdx(7).as_usize(), 7);
}

#[test]
fn initial_round_rows() {
    assert_eq!(get_decompose_e_row(RoundIdx::Init), 0);
    assert_eq!(get_decompose_f_row(InitialRound), 5);
    assert_eq!(get_decompose_g_row(InitialRound), 10);
    assert_eq!(get_h_row(RoundIdx::Init), 15);
    assert_eq!(get_decompose_a_row(RoundIdx::Init), 20);
    assert_eq!(get_decompose_b_row(InitialRound), 24);
    assert_eq!(get_decompose_c_row(InitialRound), 28);
    assert_eq!(get_d_row(RoundIdx::Init), 32);
    assert_eq!(get_digest_abcd_row(), 4320);
    assert_eq!(get_digest_efgh_row(), 4324);
}

#[test]
fn schedule_decompositions_reconstruct() {
    for x in SAMPLES {
        let w1 = decompose_subregion1_word(x, 3);
        let d = w1.d_lo_lo | (w1.d_lo_hi << 14) | (w1.d_hi_lo << 28) | (w1.d_hi_hi << 42);
        assert_eq!(w1.a | (w1.b << 1) | (w1.c << 7) | (d << 8), x);
        assert_eq!(w1.xor_lower_sigma_0(), plain_sigma_0(x));
        let w2 = decompose_word(x, 20);
        assert_eq!(w2.xor_sigma_0(), plain_sigma_0(x));
        assert_eq!(w2.xor_sigma_1(), plain_sigma_1(x));
        assert!(w2.g < 8 && w2.e < 2048);
        let w3 = decompose_subregion3_word(x, 70);
        assert_eq!(w3.xor_lower_sigma_1(), plain_sigma_1(x));
        assert_eq!(w3.a | (w3.b << 6) | (w3.d << 61) | (w3.c_lo_lo << 19) | (w3.c_lo_hi << 30) | (w3.c_hi_lo << 40) | (w3.c_hi_hi << 51), x);
        assert_eq!(lower_sigma_0(x, 1), plain_sigma_0(x));
        assert_eq!(lower_sigma_0(x, 64), plain_sigma_0(x));
        assert_eq!(lower_sigma_1(x, 14), plain_sigma_1(x));
        assert_eq!(lower_sigma_1(x, 77), plain_sigma_1(x));
    }
}

#[test]
fn new_word_carry() {
    assert_eq!(new_word(1, 2, 3, 4), (10, 0));
    assert_eq!(new_word(u64::MAX, u64::MAX, u64::MAX, u64::MAX), (u64::MAX - 3, 3));
}

#[test]
fn message_schedule() {
    let block = abc_block();
    let (w, halves) = process(&block);
    assert_eq!(w.len(), 80);
    assert_eq!(w, plain_schedule(&block));
    for t in 0..80 {
        assert_eq!(halves[t], (w[t] as u32, (w[t] >> 32) as u32));
    }
    let block: Vec<u64> = (0..16u64).map(|i| i.wrapping_mul(0x9e37_79b9_7f4a_7c15)).collect();
    assert_eq!(process(&block).0, plain_schedule(&block));
}

#[test]
fn compression_decompositions_reconstruct() {
    for x in SAMPLES {
        let a = decompose_abcd(x);
        let v = a.a_lo | (a.a_hi << 14) | (a.b_lo << 28) | (a.b_hi << 31) | (a.c_lo << 34) | (a.c_hi << 36) | (a.d_lo << 39) | (a.d_hi << 53);
        assert_eq!(v, x);
        assert_eq!(a.xor_upper_sigma(), x.rotate_right(28) ^ x.rotate_right(34) ^ x.rotate_right(39));
        let e = decompose_efgh(x);
        let v = e.a | (e.b_lo << 14) | (e.b_hi << 16) | (e.c_lo << 18) | (e.c_hi << 31) | (e.d_lo << 41) | (e.d_hi << 54);
        assert_eq!(v, x);
        assert_eq!(e.xor_upper_sigma(), x.rotate_right(14) ^ x.rotate_right(18) ^ x.rotate_right(41));
        assert!(e.c_lo < (1 << 13) && e.c_hi < (1 << 10) && e.d_lo < (1 << 13) && e.d_hi < (1 << 10));
        let rows = e.spread_words();
        assert_eq!(rows.len(), 7);
        assert_eq!(rows[3].dense, e.c_lo);
        assert_eq!(rows[3].spread, spread_word(e.c_lo as u32) as u128);
        let rows = a.spread_words();
        assert_eq!(rows.len(), 8);
        assert_eq!(rows[7].dense, a.d_hi);
        assert_eq!(rows[7].tag, 0);
    }
}

#[test]
fn one_round_from_iv() {
    let iv = initialize_with_iv();
    let s: Vec<u64> = assign_digest(&iv);
    let w = 0x6162_6380_0000_0000u64;
    let (a, b, c, d, e, f, g, h) = (s[0], s[1], s[2], s[3], s[4], s[5], s[6], s[7]);
    let s1 = e.rotate_right(14) ^ e.rotate_right(18) ^ e.rotate_right(41);
    let ch = (e & f) ^ (!e & g);
    let t1 = h.wrapping_add(s1).wrapping_add(ch).wrapping_add(round_constant(0)).wrapping_add(w);
    let s0 = a.rotate_right(28) ^ a.rotate_right(34) ^ a.rotate_right(39);
    let maj = (a & b) ^ (a & c) ^ (b & c);
    let t2 = s0.wrapping_add(maj);
    let (next, cells) = assign_round(iv, MainRoundIdx(0), w);
    let out = assign_digest(&next);
    assert_eq!(out, vec![t1.wrapping_add(t2), a, b, c, d.wrapping_add(t1), e, f, g]);
    assert_eq!(cells.a_new.0 as u64 | ((cells.a_new.1 as u64) << 32), out[0]);
    assert_eq!(cells.e_new.0 as u64 | ((cells.e_new.1 as u64) << 32), out[4]);
    assert!(cells.h_prime_carry <= 5 && cells.e_new_carry <= 1 && cells.a_new_carry <= 2);
    let parts = match_state(next);
    assert_eq!(parts.1.dense_halves.lo as u64 | ((parts.1.dense_halves.hi as u64) << 32), a);
}

#[test]
fn compress_abc_block() {
    let iv = initialize_with_iv();
    let out = assign_digest(&compress(&iv, &abc_block()));
    assert_eq!(out[0], 0xddaf35a193617aba);
    assert_eq!(out[7], 0x2a9ac94fa54ca49f);
    let again = initialize_with_state(&state_from_words(&out));
    assert_eq!(assign_digest(&again), out);
}

#[test]
fn e_word_cut_is_thirteen_and_ten() {
    let e = decompose_efgh(1 << 31);
    assert_eq!((e.c_lo, e.c_hi), (0, 1));
    let e = decompose_efgh(1 << 54);
    assert_eq!((e.d_lo, e.d_hi), (0, 1));
    let e = decompose_efgh((1 << 31) - (1 << 18));
    assert_eq!((e.c_lo, e.c_hi), ((1 << 13) - 1, 0));
}
