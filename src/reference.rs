//! The bitwise definition of SHA-512 (FIPS 180-4) over 64-bit words, against
//! which the spread-form computation is proved.
use vstd::prelude::*;
use vstd::arithmetic::div_mod::lemma_add_mod_noop_right;

verus! {

/// Number of compression rounds.
pub const ROUNDS: usize = 80;
/// Number of words of the state.
pub const STATE: usize = 8;
/// Number of words of a block.
pub const BLOCK_SIZE: usize = 16;
/// Number of words of a digest.
pub const DIGEST_SIZE: usize = 8;

/// The sum of words reduced modulo 2^64.
pub open spec fn mod64(x: int) -> u64 {
    (x % 0x1_0000_0000_0000_0000) as u64
}

/// Rotation to the right by `n` bits, `0 < n < 64`.
pub open spec fn rotr(x: u64, n: u64) -> u64 {
    (x >> n) | (x << (64 - n) as u64)
}

/// The schedule's sigma 0: ROTR 1, ROTR 8, SHR 7.
pub open spec fn small_sigma_0(x: u64) -> u64 {
    rotr(x, 1) ^ rotr(x, 8) ^ (x >> 7u64)
}

/// The schedule's sigma 1: ROTR 19, ROTR 61, SHR 6.
pub open spec fn small_sigma_1(x: u64) -> u64 {
    rotr(x, 19) ^ rotr(x, 61) ^ (x >> 6u64)
}

/// The round's Sigma 0 on A: ROTR 28, ROTR 34, ROTR 39.
pub open spec fn big_sigma_0(x: u64) -> u64 {
    rotr(x, 28) ^ rotr(x, 34) ^ rotr(x, 39)
}

/// The round's Sigma 1 on E: ROTR 14, ROTR 18, ROTR 41.
pub open spec fn big_sigma_1(x: u64) -> u64 {
    rotr(x, 14) ^ rotr(x, 18) ^ rotr(x, 41)
}

/// Choice: the bits of `f` where `e` is set, of `g` where it is not.
pub open spec fn ch(e: u64, f: u64, g: u64) -> u64 {
    (e & f) ^ (!e & g)
}

/// Bitwise majority.
pub open spec fn maj(a: u64, b: u64, c: u64) -> u64 {
    (a & b) ^ (a & c) ^ (b & c)
}

/// The round constant `K_i`.
pub open spec fn k_spec(i: u64) -> u64 {
    match i {
        0 => 0x428a_2f98_d728_ae22,
        1 => 0x7137_4491_23ef_65cd,
        2 => 0xb5c0_fbcf_ec4d_3b2f,
        3 => 0xe9b5_dba5_8189_dbbc,
        4 => 0x3956_c25b_f348_b538,
        5 => 0x59f1_11f1_b605_d019,
        6 => 0x923f_82a4_af19_4f9b,
        7 => 0xab1c_5ed5_da6d_8118,
        8 => 0xd807_aa98_a303_0242,
        9 => 0x1283_5b01_4570_6fbe,
        10 => 0x2431_85be_4ee4_b28c,
        11 => 0x550c_7dc3_d5ff_b4e2,
        12 => 0x72be_5d74_f27b_896f,
        13 => 0x80de_b1fe_3b16_96b1,
        14 => 0x9bdc_06a7_25c7_1235,
        15 => 0xc19b_f174_cf69_2694,
        16 => 0xe49b_69c1_9ef1_4ad2,
        17 => 0xefbe_4786_384f_25e3,
        18 => 0x0fc1_9dc6_8b8c_d5b5,
        19 => 0x240c_a1cc_77ac_9c65,
        20 => 0x2de9_2c6f_592b_0275,
        21 => 0x4a74_84aa_6ea6_e483,
        22 => 0x5cb0_a9dc_bd41_fbd4,
        23 => 0x76f9_88da_8311_53b5,
        24 => 0x983e_5152_ee66_dfab,
        25 => 0xa831_c66d_2db4_3210,
        26 => 0xb003_27c8_98fb_213f,
        27 => 0xbf59_7fc7_beef_0ee4,
        28 => 0xc6e0_0bf3_3da8_8fc2,
        29 => 0xd5a7_9147_930a_a725,
        30 => 0x06ca_6351_e003_826f,
        31 => 0x1429_2967_0a0e_6e70,
        32 => 0x27b7_0a85_46d2_2ffc,
        33 => 0x2e1b_2138_5c26_c926,
        34 => 0x4d2c_6dfc_5ac4_2aed,
        35 => 0x5338_0d13_9d95_b3df,
        36 => 0x650a_7354_8baf_63de,
        37 => 0x766a_0abb_3c77_b2a8,
        38 => 0x81c2_c92e_47ed_aee6,
        39 => 0x9272_2c85_1482_353b,
        40 => 0xa2bf_e8a1_4cf1_0364,
        41 => 0xa81a_664b_bc42_3001,
        42 => 0xc24b_8b70_d0f8_9791,
        43 => 0xc76c_51a3_0654_be30,
        44 => 0xd192_e819_d6ef_5218,
        45 => 0xd699_0624_5565_a910,
        46 => 0xf40e_3585_5771_202a,
        47 => 0x106a_a070_32bb_d1b8,
        48 => 0x19a4_c116_b8d2_d0c8,
        49 => 0x1e37_6c08_5141_ab53,
        50 => 0x2748_774c_df8e_eb99,
        51 => 0x34b0_bcb5_e19b_48a8,
        52 => 0x391c_0cb3_c5c9_5a63,
        53 => 0x4ed8_aa4a_e341_8acb,
        54 => 0x5b9c_ca4f_7763_e373,
        55 => 0x682e_6ff3_d6b2_b8a3,
        56 => 0x748f_82ee_5def_b2fc,
        57 => 0x78a5_636f_4317_2f60,
        58 => 0x84c8_7814_a1f0_ab72,
        59 => 0x8cc7_0208_1a64_39ec,
        60 => 0x90be_fffa_2363_1e28,
        61 => 0xa450_6ceb_de82_bde9,
        62 => 0xbef9_a3f7_b2c6_7915,
        63 => 0xc671_78f2_e372_532b,
        64 => 0xca27_3ece_ea26_619c,
        65 => 0xd186_b8c7_21c0_c207,
        66 => 0xeada_7dd6_cde0_eb1e,
        67 => 0xf57d_4f7f_ee6e_d178,
        68 => 0x06f0_67aa_7217_6fba,
        69 => 0x0a63_7dc5_a2c8_98a6,
        70 => 0x113f_9804_bef9_0dae,
        71 => 0x1b71_0b35_131c_471b,
        72 => 0x28db_77f5_2304_7d84,
        73 => 0x32ca_ab7b_40c7_2493,
        74 => 0x3c9e_be0a_15c9_bebc,
        75 => 0x431d_67c4_9c10_0d4c,
        76 => 0x4cc5_d4be_cb3e_42b6,
        77 => 0x597f_299c_fc65_7e2a,
        78 => 0x5fcb_6fab_3ad6_faec,
        _ => 0x6c44_198c_4a47_5817,
    }
}

/// Word `i` of the initial hash value.
pub open spec fn iv_spec(i: u64) -> u64 {
    match i {
        0 => 0x6a09_e667_f3bc_c908,
        1 => 0xbb67_ae85_84ca_a73b,
        2 => 0x3c6e_f372_fe94_f82b,
        3 => 0xa54f_f53a_5f1d_36f1,
        4 => 0x510e_527f_ade6_82d1,
        5 => 0x9b05_688c_2b3e_6c1f,
        6 => 0x1f83_d9ab_fb41_bd6b,
        _ => 0x5be0_cd19_137e_2179,
    }
}

/// The initial hash value.
pub open spec fn iv_seq() -> Seq<u64> {
    Seq::new(8, |i: int| iv_spec(i as u64))
}

/// The round constant `K_i`, for `i < 80`.
pub fn round_constant(i: usize) -> (r: u64)
    requires
        i < ROUNDS,
    ensures
        r == k_spec(i as u64),
{
    match i {
        0 => 0x428a_2f98_d728_ae22,
        1 => 0x7137_4491_23ef_65cd,
        2 => 0xb5c0_fbcf_ec4d_3b2f,
        3 => 0xe9b5_dba5_8189_dbbc,
        4 => 0x3956_c25b_f348_b538,
        5 => 0x59f1_11f1_b605_d019,
        6 => 0x923f_82a4_af19_4f9b,
        7 => 0xab1c_5ed5_da6d_8118,
        8 => 0xd807_aa98_a303_0242,
        9 => 0x1283_5b01_4570_6fbe,
        10 => 0x2431_85be_4ee4_b28c,
        11 => 0x550c_7dc3_d5ff_b4e2,
        12 => 0x72be_5d74_f27b_896f,
        13 => 0x80de_b1fe_3b16_96b1,
        14 => 0x9bdc_06a7_25c7_1235,
        15 => 0xc19b_f174_cf69_2694,
        16 => 0xe49b_69c1_9ef1_4ad2,
        17 => 0xefbe_4786_384f_25e3,
        18 => 0x0fc1_9dc6_8b8c_d5b5,
        19 => 0x240c_a1cc_77ac_9c65,
        20 => 0x2de9_2c6f_592b_0275,
        21 => 0x4a74_84aa_6ea6_e483,
        22 => 0x5cb0_a9dc_bd41_fbd4,
        23 => 0x76f9_88da_8311_53b5,
        24 => 0x983e_5152_ee66_dfab,
        25 => 0xa831_c66d_2db4_3210,
        26 => 0xb003_27c8_98fb_213f,
        27 => 0xbf59_7fc7_beef_0ee4,
        28 => 0xc6e0_0bf3_3da8_8fc2,
        29 => 0xd5a7_9147_930a_a725,
        30 => 0x06ca_6351_e003_826f,
        31 => 0x1429_2967_0a0e_6e70,
        32 => 0x27b7_0a85_46d2_2ffc,
        33 => 0x2e1b_2138_5c26_c926,
        34 => 0x4d2c_6dfc_5ac4_2aed,
        35 => 0x5338_0d13_9d95_b3df,
        36 => 0x650a_7354_8baf_63de,
        37 => 0x766a_0abb_3c77_b2a8,
        38 => 0x81c2_c92e_47ed_aee6,
        39 => 0x9272_2c85_1482_353b,
        40 => 0xa2bf_e8a1_4cf1_0364,
        41 => 0xa81a_664b_bc42_3001,
        42 => 0xc24b_8b70_d0f8_9791,
        43 => 0xc76c_51a3_0654_be30,
        44 => 0xd192_e819_d6ef_5218,
        45 => 0xd699_0624_5565_a910,
        46 => 0xf40e_3585_5771_202a,
        47 => 0x106a_a070_32bb_d1b8,
        48 => 0x19a4_c116_b8d2_d0c8,
        49 => 0x1e37_6c08_5141_ab53,
        50 => 0x2748_774c_df8e_eb99,
        51 => 0x34b0_bcb5_e19b_48a8,
        52 => 0x391c_0cb3_c5c9_5a63,
        53 => 0x4ed8_aa4a_e341_8acb,
        54 => 0x5b9c_ca4f_7763_e373,
        55 => 0x682e_6ff3_d6b2_b8a3,
        56 => 0x748f_82ee_5def_b2fc,
        57 => 0x78a5_636f_4317_2f60,
        58 => 0x84c8_7814_a1f0_ab72,
        59 => 0x8cc7_0208_1a64_39ec,
        60 => 0x90be_fffa_2363_1e28,
        61 => 0xa450_6ceb_de82_bde9,
        62 => 0xbef9_a3f7_b2c6_7915,
        63 => 0xc671_78f2_e372_532b,
        64 => 0xca27_3ece_ea26_619c,
        65 => 0xd186_b8c7_21c0_c207,
        66 => 0xeada_7dd6_cde0_eb1e,
        67 => 0xf57d_4f7f_ee6e_d178,
        68 => 0x06f0_67aa_7217_6fba,
        69 => 0x0a63_7dc5_a2c8_98a6,
        70 => 0x113f_9804_bef9_0dae,
        71 => 0x1b71_0b35_131c_471b,
        72 => 0x28db_77f5_2304_7d84,
        73 => 0x32ca_ab7b_40c7_2493,
        74 => 0x3c9e_be0a_15c9_bebc,
        75 => 0x431d_67c4_9c10_0d4c,
        76 => 0x4cc5_d4be_cb3e_42b6,
        77 => 0x597f_299c_fc65_7e2a,
        78 => 0x5fcb_6fab_3ad6_faec,
        _ => 0x6c44_198c_4a47_5817,
    }
}

/// Word `i` of the initial hash value, for `i < 8`.
pub fn iv_word(i: usize) -> (r: u64)
    requires
        i < STATE,
    ensures
        r == iv_spec(i as u64),
{
    match i {
        0 => 0x6a09_e667_f3bc_c908,
        1 => 0xbb67_ae85_84ca_a73b,
        2 => 0x3c6e_f372_fe94_f82b,
        3 => 0xa54f_f53a_5f1d_36f1,
        4 => 0x510e_527f_ade6_82d1,
        5 => 0x9b05_688c_2b3e_6c1f,
        6 => 0x1f83_d9ab_fb41_bd6b,
        _ => 0x5be0_cd19_137e_2179,
    }
}

/// Scheduled word `W_i` of a 16-word block.
pub open spec fn schedule_word(block: Seq<u64>, i: nat) -> u64
    decreases i,
{
    if i < 16 {
        block[i as int]
    } else {
        mod64(
            small_sigma_1(schedule_word(block, (i - 2) as nat)) as int
                + schedule_word(block, (i - 7) as nat) as int
                + small_sigma_0(schedule_word(block, (i - 15) as nat)) as int
                + schedule_word(block, (i - 16) as nat) as int,
        )
    }
}

/// One round on the state `(A, B, C, D, E, F, G, H)` with constant `k` and
/// scheduled word `w`.
pub open spec fn round_spec(s: Seq<u64>, k: u64, w: u64) -> Seq<u64> {
    let t1 = s[7] as int + big_sigma_1(s[4]) as int + ch(s[4], s[5], s[6]) as int + k as int
        + w as int;
    let t2 = big_sigma_0(s[0]) as int + maj(s[0], s[1], s[2]) as int;
    seq![mod64(t1 + t2), s[0], s[1], s[2], mod64(s[3] as int + t1), s[4], s[5], s[6]]
}

/// The state after the first `n` rounds on `block`, starting from `s`.
pub open spec fn rounds_spec(s: Seq<u64>, block: Seq<u64>, n: nat) -> Seq<u64>
    decreases n,
{
    if n == 0 {
        s
    } else {
        round_spec(
            rounds_spec(s, block, (n - 1) as nat),
            k_spec((n - 1) as u64),
            schedule_word(block, (n - 1) as nat),
        )
    }
}

/// The compression function: 80 rounds, then the feed-forward addition of
/// the incoming state.
#[verifier::opaque]
pub open spec fn compress_spec(s: Seq<u64>, block: Seq<u64>) -> Seq<u64> {
    Seq::new(8, |i: int| mod64(s[i] as int + rounds_spec(s, block, 80)[i] as int))
}

/// The hash state after the whole 16-word blocks of `words`, from the
/// initial hash value.
#[verifier::opaque]
pub open spec fn hash_words(words: Seq<u64>) -> Seq<u64>
    decreases words.len(),
{
    if words.len() < 16 {
        iv_seq()
    } else {
        compress_spec(
            hash_words(words.subrange(0, words.len() - 16)),
            words.subrange(words.len() - 16, words.len() as int),
        )
    }
}

/// Hashing a message of two blocks feeds the state after the first block
/// forward into the compression of the second.
pub proof fn lemma_two_blocks(words: Seq<u64>)
    requires
        words.len() == 32,
    ensures
        hash_words(words) == compress_spec(
            compress_spec(iv_seq(), words.subrange(0, 16)),
            words.subrange(16, 32),
        ),
{
    reveal(hash_words);
    let first = words.subrange(0, 16);
    assert(first.subrange(0, 0).len() == 0);
    assert(first.subrange(0, 16) =~= first);
    assert(hash_words(first.subrange(0, 0)) == iv_seq());
    assert(hash_words(first) == compress_spec(iv_seq(), first));
    assert(hash_words(words) == compress_spec(hash_words(first), words.subrange(16, 32)));
}

/// Reducing a partial sum modulo 2^64 first does not change the reduced total.
pub proof fn lemma_mod64_absorb(x: int, y: int)
    ensures
        mod64(mod64(x) as int + y) == mod64(x + y),
        mod64(y + mod64(x) as int) == mod64(y + x),
{
    let m = 0x1_0000_0000_0000_0000int;
    lemma_add_mod_noop_right(y, x, m);
    assert(mod64(x) as int == x % m);
    assert(y + x % m == x % m + y);
    assert(y + x == x + y);
}

/// Hashing one more whole block compresses it into the hash of the blocks
/// before it.
pub proof fn lemma_hash_append(prefix: Seq<u64>, block: Seq<u64>)
    requires
        block.len() == 16,
    ensures
        hash_words(prefix + block) == compress_spec(hash_words(prefix), block),
{
    reveal(hash_words);
    let all = prefix + block;
    assert(all.subrange(0, all.len() - 16) =~= prefix);
    assert(all.subrange(all.len() - 16, all.len() as int) =~= block);
}

} // verus!
