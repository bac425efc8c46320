//! Spread form of 32-bit half-words, and extraction of the even and odd bits
//! of a spread sum.
use vstd::prelude::*;

verus! {

/// Mask of the even bit positions of a 64-bit spread value.
pub const MASK_EVEN_32: u64 = 0x5555_5555_5555_5555;

/// Zero-interleaving of a 32-bit value: bit `i` of `x` moves to bit `2i`
/// (`lemma_spread_bits`). The bits are moved by halving strides: 16, 8, 4, 2
/// and 1 positions.
pub open spec fn spread_spec(x: u32) -> u64 {
    let v0 = x as u64;
    let v1 = (v0 | (v0 << 16u64)) & 0x0000_FFFF_0000_FFFFu64;
    let v2 = (v1 | (v1 << 8u64)) & 0x00FF_00FF_00FF_00FFu64;
    let v3 = (v2 | (v2 << 4u64)) & 0x0F0F_0F0F_0F0F_0F0Fu64;
    let v4 = (v3 | (v3 << 2u64)) & 0x3333_3333_3333_3333u64;
    (v4 | (v4 << 1u64)) & 0x5555_5555_5555_5555u64
}

/// The bits at even positions of a 64-bit value: bit `2i` moves to bit `i`
/// (`lemma_even_bits`). The strides of the spread form are undone in reverse.
pub open spec fn even_bits_spec(s: u64) -> u32 {
    let v0 = s & 0x5555_5555_5555_5555u64;
    let v1 = (v0 | (v0 >> 1u64)) & 0x3333_3333_3333_3333u64;
    let v2 = (v1 | (v1 >> 2u64)) & 0x0F0F_0F0F_0F0F_0F0Fu64;
    let v3 = (v2 | (v2 >> 4u64)) & 0x00FF_00FF_00FF_00FFu64;
    let v4 = (v3 | (v3 >> 8u64)) & 0x0000_FFFF_0000_FFFFu64;
    ((v4 | (v4 >> 16u64)) & 0xFFFF_FFFFu64) as u32
}

/// The bits at odd positions of a 64-bit value: bit `2i + 1` moves to bit `i`.
pub open spec fn odd_bits_spec(s: u64) -> u32 {
    even_bits_spec(s >> 1u64)
}

/// Bit `i` of a 64-bit value.
pub open spec fn bit64(v: u64, i: u64) -> bool {
    (v >> i) & 1u64 == 1u64
}

/// Bit `i` of a 32-bit value.
pub open spec fn bit32(v: u32, i: u32) -> bool {
    (v >> i) & 1u32 == 1u32
}

/// Bitwise majority of three words.
pub open spec fn maj32(x: u32, y: u32, z: u32) -> u32 {
    (x & y) ^ (x & z) ^ (y & z)
}

/// Bit `2i` of the spread form is bit `i` of the value, and bit `2i + 1` is zero.
pub proof fn lemma_spread_bits(x: u32, i: u32)
    requires
        i < 32,
    ensures
        bit64(spread_spec(x), (2 * i) as u64) == bit32(x, i),
        !bit64(spread_spec(x), (2 * i + 1) as u64),
{
    let j = (2 * i) as u64;
    let k = (2 * i + 1) as u64;
    assert(((spread_spec(x) >> j) & 1u64 == 1u64) == ((x >> i) & 1u32 == 1u32)
        && (spread_spec(x) >> k) & 1u64 != 1u64) by (bit_vector)
        requires
            i < 32,
            j == 2 * i,
            k == 2 * i + 1,
    ;
}

/// Bit `i` of the even bits is bit `2i` of the value.
pub proof fn lemma_even_bits(s: u64, i: u32)
    requires
        i < 32,
    ensures
        bit32(even_bits_spec(s), i) == bit64(s, (2 * i) as u64),
{
    let j = (2 * i) as u64;
    assert(((even_bits_spec(s) >> i) & 1u32 == 1u32) == ((s >> j) & 1u64 == 1u64)) by (bit_vector)
        requires
            i < 32,
            j == 2 * i,
    ;
}

/// The even bits of a spread value give back the value.
pub proof fn lemma_even_of_spread(x: u32)
    ensures
        even_bits_spec(spread_spec(x)) == x,
        odd_bits_spec(spread_spec(x)) == 0,
{
    assert(even_bits_spec(spread_spec(x)) == x && odd_bits_spec(spread_spec(x)) == 0)
        by (bit_vector);
}

/// Adding a spread value to itself: the even bits are zero, the odd bits the value.
pub proof fn lemma_spread_double(x: u32)
    ensures
        spread_spec(x) + spread_spec(x) <= u64::MAX,
        even_bits_spec((spread_spec(x) + spread_spec(x)) as u64) == 0,
        odd_bits_spec((spread_spec(x) + spread_spec(x)) as u64) == x,
{
    assert(spread_spec(x) + spread_spec(x) <= 0xFFFF_FFFF_FFFF_FFFFu64
        && even_bits_spec((spread_spec(x) + spread_spec(x)) as u64) == 0
        && odd_bits_spec((spread_spec(x) + spread_spec(x)) as u64) == x) by (bit_vector);
}

/// The sum of two spread values holds the XOR on its even bits and the AND on
/// its odd bits.
pub proof fn lemma_spread_xor_and(x: u32, y: u32)
    ensures
        spread_spec(x) + spread_spec(y) <= u64::MAX,
        even_bits_spec((spread_spec(x) + spread_spec(y)) as u64) == x ^ y,
        odd_bits_spec((spread_spec(x) + spread_spec(y)) as u64) == x & y,
{
    assert(spread_spec(x) + spread_spec(y) <= 0xFFFF_FFFF_FFFF_FFFFu64
        && even_bits_spec((spread_spec(x) + spread_spec(y)) as u64) == x ^ y
        && odd_bits_spec((spread_spec(x) + spread_spec(y)) as u64) == x & y) by (bit_vector);
}

/// The sum of three spread values holds the three-way XOR on its even bits and
/// the majority on its odd bits.
pub proof fn lemma_spread_xor3_maj(x: u32, y: u32, z: u32)
    ensures
        spread_spec(x) + spread_spec(y) + spread_spec(z) <= u64::MAX,
        even_bits_spec((spread_spec(x) + spread_spec(y) + spread_spec(z)) as u64) == x ^ y ^ z,
        odd_bits_spec((spread_spec(x) + spread_spec(y) + spread_spec(z)) as u64) == maj32(x, y, z),
{
    assert(spread_spec(x) + spread_spec(y) + spread_spec(z) <= 0xFFFF_FFFF_FFFF_FFFFu64
        && even_bits_spec((spread_spec(x) + spread_spec(y) + spread_spec(z)) as u64) == x ^ y ^ z
        && odd_bits_spec((spread_spec(x) + spread_spec(y) + spread_spec(z)) as u64)
        == maj32(x, y, z)) by (bit_vector);
}

/// The complement of a spread value, kept in spread form: every even bit is
/// flipped and every odd bit stays zero.
pub open spec fn negate_spread_spec(s: u64) -> u64 {
    (MASK_EVEN_32 - s) as u64
}

/// The low 32 bits of a word.
pub open spec fn lo32(w: u64) -> u32 {
    (w & 0xFFFF_FFFFu64) as u32
}

/// The high 32 bits of a word.
pub open spec fn hi32(w: u64) -> u32 {
    (w >> 32u64) as u32
}

/// The word whose halves are `lo` and `hi`.
pub open spec fn join32(lo: u32, hi: u32) -> u64 {
    (lo as u64) | ((hi as u64) << 32u64)
}

/// Spread form of a 32-bit value.
pub fn spread_word(x: u32) -> (r: u64)
    ensures
        r == spread_spec(x),
{
    let v0 = x as u64;
    let v1 = (v0 | (v0 << 16u64)) & 0x0000_FFFF_0000_FFFFu64;
    let v2 = (v1 | (v1 << 8u64)) & 0x00FF_00FF_00FF_00FFu64;
    let v3 = (v2 | (v2 << 4u64)) & 0x0F0F_0F0F_0F0F_0F0Fu64;
    let v4 = (v3 | (v3 << 2u64)) & 0x3333_3333_3333_3333u64;
    (v4 | (v4 << 1u64)) & 0x5555_5555_5555_5555u64
}

/// The bits at even positions of a 64-bit value.
pub fn even_word(s: u64) -> (r: u32)
    ensures
        r == even_bits_spec(s),
{
    let v0 = s & 0x5555_5555_5555_5555u64;
    let v1 = (v0 | (v0 >> 1u64)) & 0x3333_3333_3333_3333u64;
    let v2 = (v1 | (v1 >> 2u64)) & 0x0F0F_0F0F_0F0F_0F0Fu64;
    let v3 = (v2 | (v2 >> 4u64)) & 0x00FF_00FF_00FF_00FFu64;
    let v4 = (v3 | (v3 >> 8u64)) & 0x0000_FFFF_0000_FFFFu64;
    ((v4 | (v4 >> 16u64)) & 0xFFFF_FFFFu64) as u32
}

/// The bits at odd positions of a 64-bit value.
pub fn odd_word(s: u64) -> (r: u32)
    ensures
        r == odd_bits_spec(s),
{
    even_word(s >> 1u64)
}

/// The complement in spread form of the spread value `s`.
pub fn negate_spread(s: u64) -> (r: u64)
    requires
        s & !MASK_EVEN_32 == 0,
    ensures
        r == negate_spread_spec(s),
{
    assert(s <= MASK_EVEN_32) by (bit_vector)
        requires
            s & !0x5555_5555_5555_5555u64 == 0,
    ;
    MASK_EVEN_32 - s
}

/// Complementing in spread form gives the spread form of the complement, and
/// the two spreads add up to the spread form of all ones.
pub proof fn lemma_negate_spread(e: u32)
    ensures
        spread_spec(e) & !MASK_EVEN_32 == 0,
        negate_spread_spec(spread_spec(e)) == spread_spec(!e),
        negate_spread_spec(spread_spec(e)) + spread_spec(e) == spread_spec(0xFFFF_FFFFu32),
{
    assert(spread_spec(e) & !0x5555_5555_5555_5555u64 == 0
        && spread_spec(e) <= 0x5555_5555_5555_5555u64
        && (0x5555_5555_5555_5555u64 - spread_spec(e)) as u64 == spread_spec(!e)
        && spread_spec(0xFFFF_FFFFu32) == 0x5555_5555_5555_5555u64) by (bit_vector);
}

/// For a 64-bit word, complementing each spread half in spread form and adding
/// back the half gives the spread form of the all-ones half.
pub proof fn lemma_negate_spread_word(e: u64)
    ensures
        negate_spread_spec(spread_spec(lo32(e))) + spread_spec(lo32(e)) == spread_spec(
            0xFFFF_FFFFu32,
        ),
        negate_spread_spec(spread_spec(hi32(e))) + spread_spec(hi32(e)) == spread_spec(
            0xFFFF_FFFFu32,
        ),
        negate_spread_spec(spread_spec(lo32(e))) == spread_spec(lo32(!e)),
        negate_spread_spec(spread_spec(hi32(e))) == spread_spec(hi32(!e)),
{
    lemma_negate_spread(lo32(e));
    lemma_negate_spread(hi32(e));
    assert(!lo32(e) == lo32(!e) && !hi32(e) == hi32(!e)) by (bit_vector);
}

/// The halves of a word put back together give the word.
pub proof fn lemma_join_halves(w: u64)
    ensures
        join32(lo32(w), hi32(w)) == w,
        lo32(w) as nat + 0x1_0000_0000 * (hi32(w) as nat) == w as nat,
{
    assert(join32(lo32(w), hi32(w)) == w) by (bit_vector);
    assert((lo32(w) as u64) + 0x1_0000_0000u64 * (hi32(w) as u64) == w) by (bit_vector);
}

/// The value of a pair of 32-bit halves.
pub open spec fn pair_value(p: (u32, u32)) -> nat {
    p.0 as nat + 0x1_0000_0000 * (p.1 as nat)
}

/// The sum of the values of a sequence of pairs of halves.
pub open spec fn pairs_sum(s: Seq<(u32, u32)>) -> nat
    decreases s.len(),
{
    if s.len() == 0 {
        0
    } else {
        pairs_sum(s.drop_last()) + pair_value(s.last())
    }
}

/// Adds words given as pairs of 32-bit halves; returns the sum modulo 2^64
/// and the carry beyond 2^64, which is below the number of addends.
pub fn sum_with_carry(pairs: &Vec<(u32, u32)>) -> (r: (u64, u64))
    requires
        pairs.len() <= 0xFFFF_FFFF,
    ensures
        pairs_sum(pairs@) == r.0 as nat + 0x1_0000_0000_0000_0000 * (r.1 as nat),
        r.1 as nat <= if pairs.len() == 0 { 0 } else { (pairs.len() - 1) as nat },
        pairs.len() > 0 ==> (r.1 as nat) < pairs.len(),
{
    let mut sum: u128 = 0;
    let mut i: usize = 0;
    while i < pairs.len()
        invariant
            i <= pairs.len(),
            pairs.len() <= 0xFFFF_FFFF,
            sum as nat == pairs_sum(pairs@.subrange(0, i as int)),
            sum as nat <= i * 0xFFFF_FFFF_FFFF_FFFFnat,
        decreases pairs.len() - i,
    {
        let (lo, hi) = pairs[i];
        assert(pairs@.subrange(0, i + 1).drop_last() =~= pairs@.subrange(0, i as int));
        assert(pair_value((lo, hi)) <= 0xFFFF_FFFF_FFFF_FFFF);
        assert(i * 0xFFFF_FFFF_FFFF_FFFFnat + 0xFFFF_FFFF_FFFF_FFFFnat == (i + 1)
            * 0xFFFF_FFFF_FFFF_FFFFnat) by (nonlinear_arith);
        assert((i + 1) * 0xFFFF_FFFF_FFFF_FFFFnat <= 0xFFFF_FFFF * 0xFFFF_FFFF_FFFF_FFFFnat)
            by (nonlinear_arith)
            requires
                i < 0xFFFF_FFFF,
        ;
        sum = sum + lo as u128 + 0x1_0000_0000u128 * (hi as u128);
        i = i + 1;
    }
    assert(pairs@.subrange(0, pairs.len() as int) =~= pairs@);
    let lo = (sum % 0x1_0000_0000_0000_0000u128) as u64;
    let carry = (sum / 0x1_0000_0000_0000_0000u128) as u64;
    proof {
        let n = pairs.len() as nat;
        if n > 0 {
            assert(sum as nat <= n * 0xFFFF_FFFF_FFFF_FFFFnat);
            assert(n * 0xFFFF_FFFF_FFFF_FFFFnat < n * 0x1_0000_0000_0000_0000nat) by (nonlinear_arith)
                requires n > 0;
            assert((sum as nat) / 0x1_0000_0000_0000_0000nat < n) by (nonlinear_arith)
                requires (sum as nat) < n * 0x1_0000_0000_0000_0000nat;
        }
    }
    (lo, carry)
}

/// The halves of a joined word are the parts it was joined from.
pub proof fn lemma_halves_of_join(lo: u32, hi: u32)
    ensures
        lo32(join32(lo, hi)) == lo,
        hi32(join32(lo, hi)) == hi,
{
    assert(lo32(join32(lo, hi)) == lo && hi32(join32(lo, hi)) == hi) by (bit_vector);
}

/// Every 64-bit value is the spread form of its even bits plus twice the
/// spread form of its odd bits.
pub proof fn lemma_spread_split(s: u64)
    ensures
        spread_spec(even_bits_spec(s)) + 2 * spread_spec(odd_bits_spec(s)) == s,
{
    assert(spread_spec(even_bits_spec(s)) + 2 * spread_spec(odd_bits_spec(s)) == s)
        by (bit_vector);
}

/// The spread sums of the halves of two 64-bit words hold the words' XOR on
/// their even bits and the words' AND on their odd bits.
pub proof fn lemma_spread_xor_and_word(x: u64, y: u64)
    ensures
        join32(
            even_bits_spec((spread_spec(lo32(x)) + spread_spec(lo32(y))) as u64),
            even_bits_spec((spread_spec(hi32(x)) + spread_spec(hi32(y))) as u64),
        ) == x ^ y,
        join32(
            odd_bits_spec((spread_spec(lo32(x)) + spread_spec(lo32(y))) as u64),
            odd_bits_spec((spread_spec(hi32(x)) + spread_spec(hi32(y))) as u64),
        ) == x & y,
{
    lemma_spread_xor_and(lo32(x), lo32(y));
    lemma_spread_xor_and(hi32(x), hi32(y));
    assert(join32(lo32(x) ^ lo32(y), hi32(x) ^ hi32(y)) == x ^ y && join32(
        lo32(x) & lo32(y),
        hi32(x) & hi32(y),
    ) == x & y) by (bit_vector);
}

/// Adding the spread halves of a 64-bit word to themselves: the even bits
/// give zero and the odd bits give back the word.
pub proof fn lemma_spread_double_word(b: u64)
    ensures
        join32(
            even_bits_spec((spread_spec(lo32(b)) + spread_spec(lo32(b))) as u64),
            even_bits_spec((spread_spec(hi32(b)) + spread_spec(hi32(b))) as u64),
        ) == 0,
        join32(
            odd_bits_spec((spread_spec(lo32(b)) + spread_spec(lo32(b))) as u64),
            odd_bits_spec((spread_spec(hi32(b)) + spread_spec(hi32(b))) as u64),
        ) == b,
{
    lemma_spread_double(lo32(b));
    lemma_spread_double(hi32(b));
    lemma_join_halves(b);
    assert(join32(0, 0) == 0) by (bit_vector);
}

/// Zero-interleaving of a 64-bit value into 128 bits.
pub open spec fn spread64_spec(x: u64) -> u128 {
    let v0 = x as u128;
    let v1 = (v0 | (v0 << 32u128)) & 0x0000_0000_FFFF_FFFF_0000_0000_FFFF_FFFFu128;
    let v2 = (v1 | (v1 << 16u128)) & 0x0000_FFFF_0000_FFFF_0000_FFFF_0000_FFFFu128;
    let v3 = (v2 | (v2 << 8u128)) & 0x00FF_00FF_00FF_00FF_00FF_00FF_00FF_00FFu128;
    let v4 = (v3 | (v3 << 4u128)) & 0x0F0F_0F0F_0F0F_0F0F_0F0F_0F0F_0F0F_0F0Fu128;
    let v5 = (v4 | (v4 << 2u128)) & 0x3333_3333_3333_3333_3333_3333_3333_3333u128;
    (v5 | (v5 << 1u128)) & 0x5555_5555_5555_5555_5555_5555_5555_5555u128
}

/// Spread form of a 64-bit value (or of a piece of one).
pub fn spread_word64(x: u64) -> (r: u128)
    ensures
        r == spread64_spec(x),
{
    let v0 = x as u128;
    let v1 = (v0 | (v0 << 32u128)) & 0x0000_0000_FFFF_FFFF_0000_0000_FFFF_FFFFu128;
    let v2 = (v1 | (v1 << 16u128)) & 0x0000_FFFF_0000_FFFF_0000_FFFF_0000_FFFFu128;
    let v3 = (v2 | (v2 << 8u128)) & 0x00FF_00FF_00FF_00FF_00FF_00FF_00FF_00FFu128;
    let v4 = (v3 | (v3 << 4u128)) & 0x0F0F_0F0F_0F0F_0F0F_0F0F_0F0F_0F0F_0F0Fu128;
    let v5 = (v4 | (v4 << 2u128)) & 0x3333_3333_3333_3333_3333_3333_3333_3333u128;
    (v5 | (v5 << 1u128)) & 0x5555_5555_5555_5555_5555_5555_5555_5555u128
}

/// The spread form of a 64-bit word is the spread form of its low half plus
/// 2^64 times that of its high half, and it has no odd bit set.
pub proof fn lemma_spread64_halves(x: u64)
    ensures
        spread64_spec(x) as int == spread_spec(lo32(x)) as int + 0x1_0000_0000_0000_0000
            * spread_spec(hi32(x)) as int,
        spread64_spec(x) <= 0x5555_5555_5555_5555_5555_5555_5555_5555u128,
{
    assert(spread64_spec(x) == (spread_spec(lo32(x)) as u128) + ((spread_spec(hi32(x)) as u128)
        << 64u128) && spread64_spec(x) <= 0x5555_5555_5555_5555_5555_5555_5555_5555u128)
        by (bit_vector);
    assert(((spread_spec(hi32(x)) as u128) << 64u128) == 0x1_0000_0000_0000_0000u128 * (
    spread_spec(hi32(x)) as u128)) by (bit_vector);
}

/// A spread pair `spread(e) + 2 * spread(o)` determines `e` (its even bits)
/// and `o` (its odd bits), and stays below 2^64.
pub proof fn lemma_spread_pair(e: u32, o: u32)
    ensures
        spread_spec(e) + 2 * spread_spec(o) <= u64::MAX,
        even_bits_spec((spread_spec(e) + 2 * spread_spec(o)) as u64) == e,
        odd_bits_spec((spread_spec(e) + 2 * spread_spec(o)) as u64) == o,
{
    assert(spread_spec(e) + 2 * spread_spec(o) <= 0xFFFF_FFFF_FFFF_FFFFu64 && even_bits_spec(
        (spread_spec(e) + 2 * spread_spec(o)) as u64,
    ) == e && odd_bits_spec((spread_spec(e) + 2 * spread_spec(o)) as u64) == o) by (bit_vector);
}

} // verus!
