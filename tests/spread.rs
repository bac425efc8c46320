use sha512_halo2::bits::{
    even_word, negate_spread, odd_word, spread_word, sum_with_carry, MASK_EVEN_32,
};
use sha512_halo2::gates::{add_words, assign_spread_outputs, maj_via_spread, xor_via_spread};
use sha512_halo2::table::{generate, get_tag, SpreadWord};
use sha512_halo2::util::{even_bits, i2lebsp, lebs2ip, odd_bits, spread_bits, Bits};

#[test]
fn spread_of_small_values() {
    assert_eq!(spread_word(0), 0);
    assert_eq!(spread_word(1), 1);
    assert_eq!(spread_word(0b11), 0b101);
    assert_eq!(spread_word(0b1011), 0b1000101);
    assert_eq!(spread_word(0xFFFF_FFFF), 0x5555_5555_5555_5555);
    assert_eq!(spread_word(0x8000_0000), 0x4000_0000_0000_0000);
}

#[test]
fn spread_round_trip() {
    for x in [0u32, 1, 2, 0xdead_beef, 0x1234_5678, u32::MAX] {
        let s = spread_word(x);
        assert_eq!(even_word(s), x);
        assert_eq!(odd_word(s), 0);
        assert_eq!(even_word(s + s), 0);
        assert_eq!(odd_word(s + s), x);
    }
}

#[test]
fn xor_and_through_spread() {
    let pairs = [(0xdead_beefu32, 0x0123_4567u32), (u32::MAX, 0), (u32::MAX, u32::MAX), (0xAAAA_AAAA, 0x5555_5555)];
    for (x, y) in pairs {
        let s = spread_word(x) + spread_word(y);
        assert_eq!(even_word(s), x ^ y);
        assert_eq!(odd_word(s), x & y);
    }
}

#[test]
fn negate_spread_complements() {
    for e in [0u32, 1, 0xdead_beef, u32::MAX] {
        let s = spread_word(e);
        let n = negate_spread(s);
        assert_eq!(n, spread_word(!e));
        assert_eq!(n + s, spread_word(u32::MAX));
        assert_eq!(n + s, MASK_EVEN_32);
    }
}

#[test]
fn sum_with_carry_values() {
    assert_eq!(sum_with_carry(&vec![]), (0, 0));
    assert_eq!(sum_with_carry(&vec![(1, 2), (3, 4)]), (4 + (6u64 << 32), 0));
    let max = (u32::MAX, u32::MAX);
    assert_eq!(sum_with_carry(&vec![max, (1, 0)]), (0, 1));
    assert_eq!(sum_with_carry(&vec![max, max, max]), (u64::MAX - 2, 2));
    assert_eq!(sum_with_carry(&vec![max; 6]), (u64::MAX - 5, 5));
}

#[test]
fn add_words_values() {
    assert_eq!(add_words(&vec![u64::MAX, 2]), (1, 1));
    assert_eq!(add_words(&vec![5, 6, 7]), (18, 0));
}

#[test]
fn spread_outputs_split_even_and_odd() {
    let o = assign_spread_outputs(0b1110, 0b0111);
    assert_eq!((o.even_lo, o.odd_lo), (0b10, 0b11));
    assert_eq!((o.even_hi, o.odd_hi), (0b11, 0b01));
}

#[test]
fn xor_and_majority_of_words() {
    let (x, y, z) = (0x0123_4567_89ab_cdefu64, 0xfedc_ba98_7654_3210u64, 0xdead_beef_cafe_f00du64);
    assert_eq!(xor_via_spread(x, y, z), x ^ y ^ z);
    assert_eq!(maj_via_spread(x, y, z), (x & y) ^ (x & z) ^ (y & z));
}

#[test]
fn tags_at_class_edges() {
    assert_eq!(get_tag(0), 0);
    assert_eq!(get_tag((1 << 11) - 1), 0);
    assert_eq!(get_tag(1 << 11), 1);
    assert_eq!(get_tag(1 << 13), 2);
    assert_eq!(get_tag((1 << 14) - 1), 2);
    assert_eq!(get_tag(1 << 14), 3);
    assert_eq!(get_tag(1 << 23), 4);
    assert_eq!(get_tag(1 << 25), 5);
    assert_eq!(get_tag(1 << 28), 6);
    assert_eq!(get_tag(1 << 42), 7);
    assert_eq!(get_tag((1 << 56) - 1), 7);
    assert_eq!(get_tag(1 << 56), 8);
    assert_eq!(get_tag(u64::MAX), 8);
}

#[test]
fn lookup_table() {
    let rows = generate(1 << 14);
    assert_eq!(rows.len(), 1 << 14);
    for (i, row) in rows.iter().enumerate() {
        assert_eq!(row.dense as usize, i);
        assert_eq!(row.tag, get_tag(i as u64));
        assert_eq!(row.spread, spread_word(i as u32) as u128);
    }
    assert_eq!(rows[0b101].spread, 0b10001);
    assert_eq!(SpreadWord::try_new(1 << 32, 32), None);
    assert_eq!(SpreadWord::try_new(3, 2), Some(SpreadWord::new(3)));
    assert_eq!(SpreadWord::try_new(4, 2), None);
    assert_eq!(SpreadWord::try_new(u64::MAX, 64), Some(SpreadWord::new(u64::MAX)));
    let top = SpreadWord::new(u64::MAX);
    assert_eq!(top.spread, 0x5555_5555_5555_5555_5555_5555_5555_5555);
    assert_eq!(top.tag, 8);
    assert_eq!(SpreadWord::new(1 << 63).spread, 1u128 << 126);
}

#[test]
fn bit_arrays() {
    let bits = i2lebsp(0b1101, 6);
    assert_eq!(bits, vec![true, false, true, true, false, false]);
    assert_eq!(lebs2ip(&bits), 0b1101);
    assert_eq!(lebs2ip(&i2lebsp(u128::MAX, 128)), u128::MAX);
    let spread = spread_bits(&bits);
    assert_eq!(spread.len(), 12);
    assert_eq!(lebs2ip(&spread), spread_word(0b1101) as u128);
    assert_eq!(even_bits(&spread), bits);
    assert_eq!(odd_bits(&spread), vec![false; 6]);
    let b = Bits { bits: vec![true, true] };
    assert_eq!(b.spread().bits, vec![true, false, true, false]);
    assert_eq!(b.value(), 3);
    let b = Bits { bits: vec![true, false, true, true] };
    let s = lebs2ip(&b.spread().bits);
    let doubled = i2lebsp(s + s, 8);
    assert_eq!(even_bits(&doubled), vec![false; 4]);
    assert_eq!(odd_bits(&doubled), b.bits);
}
