//! Little-endian bit arrays: conversion to and from integers, zero
//! interleaving, and extraction of the even and odd positions.
use vstd::prelude::*;

verus! {

/// The integer whose little-endian bits are `s`.
pub open spec fn bits_value(s: Seq<bool>) -> nat
    decreases s.len(),
{
    if s.len() == 0 {
        0
    } else {
        (if s[0] { 1nat } else { 0nat }) + 2 * bits_value(s.drop_first())
    }
}

/// `2^t`.
pub open spec fn pow2n(t: nat) -> nat
    decreases t,
{
    if t == 0 {
        1
    } else {
        2 * pow2n((t - 1) as nat)
    }
}

/// The zero-interleaving of `s`: bit `i` moves to position `2i`, and every
/// odd position is zero.
pub open spec fn spread_seq(s: Seq<bool>) -> Seq<bool> {
    Seq::new(2 * s.len(), |j: int| j % 2 == 0 && s[j / 2])
}

/// The bits of `s` at even positions.
pub open spec fn evens(s: Seq<bool>) -> Seq<bool> {
    Seq::new(s.len() / 2, |i: int| s[2 * i])
}

/// The bits of `s` at odd positions.
pub open spec fn odds(s: Seq<bool>) -> Seq<bool> {
    Seq::new(s.len() / 2, |i: int| s[2 * i + 1])
}

/// The `n` low little-endian bits of `x`.
pub open spec fn bits_of(x: u128, n: nat) -> Seq<bool> {
    Seq::new(n, |i: int| (x >> (i as u128)) & 1u128 == 1u128)
}

/// `2^(a + b) = 2^a * 2^b`.
proof fn lemma_pow2n_add(a: nat, b: nat)
    ensures
        pow2n(a + b) == pow2n(a) * pow2n(b),
    decreases a,
{
    if a == 0 {
        assert(pow2n(0) == 1);
        assert(a + b == b);
    } else {
        let p = pow2n((a - 1) as nat);
        let q = pow2n(b);
        lemma_pow2n_add((a - 1) as nat, b);
        assert((a - 1 + b) as nat == (a + b - 1) as nat);
        assert(pow2n(a + b) == 2 * pow2n((a + b - 1) as nat));
        assert(pow2n(a) == 2 * p);
        assert(2 * (p * q) == (2 * p) * q) by (nonlinear_arith);
    }
}

/// `2^t <= 2^128` for `t <= 128`.
proof fn lemma_pow2n_le(t: nat)
    requires
        t <= 128,
    ensures
        pow2n(t) <= 0x1_0000_0000_0000_0000_0000_0000_0000_0000,
    decreases 128 - t,
{
    if t == 128 {
        assert(pow2n(16) == 0x1_0000) by {
            reveal_with_fuel(pow2n, 17);
        }
        lemma_pow2n_add(16, 16);
        assert(pow2n(32) == 0x1_0000_0000);
        lemma_pow2n_add(32, 32);
        assert(pow2n(64) == 0x1_0000_0000_0000_0000);
        lemma_pow2n_add(64, 64);
        assert(pow2n(128) == 0x1_0000_0000_0000_0000 * 0x1_0000_0000_0000_0000int);
    } else {
        lemma_pow2n_le(t + 1);
    }
}

/// The integer whose little-endian bits are `bits`.
pub fn lebs2ip(bits: &Vec<bool>) -> (r: u128)
    requires
        bits.len() <= 128,
    ensures
        r == bits_value(bits@),
{
    let n = bits.len();
    let mut r: u128 = 0;
    let mut i: usize = n;
    while i > 0
        invariant
            n == bits.len(),
            n <= 128,
            i <= n,
            r == bits_value(bits@.subrange(i as int, n as int)),
            (r as nat) < pow2n((n - i) as nat),
        decreases i,
    {
        i = i - 1;
        proof {
            let s = bits@.subrange(i as int, n as int);
            assert(s.drop_first() =~= bits@.subrange(i + 1, n as int));
            lemma_pow2n_le((n - i) as nat);
        }
        r = 2 * r + if bits[i] { 1u128 } else { 0u128 };
    }
    assert(bits@.subrange(0, n as int) =~= bits@);
    r
}

/// The `n` low little-endian bits of `value`.
pub fn i2lebsp(value: u128, n: usize) -> (r: Vec<bool>)
    requires
        n <= 128,
    ensures
        r@ == bits_of(value, n as nat),
{
    let mut r: Vec<bool> = Vec::new();
    let mut i: usize = 0;
    while i < n
        invariant
            i <= n,
            n <= 128,
            r@ == bits_of(value, i as nat),
        decreases n - i,
    {
        r.push((value >> (i as u128)) & 1u128 == 1u128);
        i = i + 1;
        assert(r@ =~= bits_of(value, i as nat));
    }
    r
}

/// Zero-interleaves `bits`.
pub fn spread_bits(bits: &Vec<bool>) -> (r: Vec<bool>)
    requires
        bits.len() <= usize::MAX / 2,
    ensures
        r@ == spread_seq(bits@),
{
    let mut r: Vec<bool> = Vec::new();
    let mut i: usize = 0;
    while i < bits.len()
        invariant
            i <= bits.len(),
            bits.len() <= usize::MAX / 2,
            r@.len() == 2 * i,
            forall|j: int| 0 <= j < 2 * i ==> r@[j] == (j % 2 == 0 && bits@[j / 2]),
        decreases bits.len() - i,
    {
        r.push(bits[i]);
        r.push(false);
        i = i + 1;
    }
    assert(r@ =~= spread_seq(bits@));
    r
}

/// The bits of `bits` at even positions.
pub fn even_bits(bits: &Vec<bool>) -> (r: Vec<bool>)
    ensures
        r@ == evens(bits@),
{
    let mut r: Vec<bool> = Vec::new();
    let mut i: usize = 0;
    while i < bits.len() / 2
        invariant
            i <= bits.len() / 2,
            r@.len() == i,
            forall|j: int| 0 <= j < i ==> r@[j] == bits@[2 * j],
        decreases bits.len() / 2 - i,
    {
        r.push(bits[2 * i]);
        i = i + 1;
    }
    assert(r@ =~= evens(bits@));
    r
}

/// The bits of `bits` at odd positions.
pub fn odd_bits(bits: &Vec<bool>) -> (r: Vec<bool>)
    ensures
        r@ == odds(bits@),
{
    let mut r: Vec<bool> = Vec::new();
    let mut i: usize = 0;
    while i < bits.len() / 2
        invariant
            i <= bits.len() / 2,
            r@.len() == i,
            forall|j: int| 0 <= j < i ==> r@[j] == bits@[2 * j + 1],
        decreases bits.len() / 2 - i,
    {
        r.push(bits[2 * i + 1]);
        i = i + 1;
    }
    assert(r@ =~= odds(bits@));
    r
}

/// The even and odd positions of a spread array give back the array and zeros.
pub proof fn lemma_spread_round_trip(s: Seq<bool>)
    ensures
        evens(spread_seq(s)) == s,
        odds(spread_seq(s)) == Seq::new(s.len(), |i: int| false),
{
    assert(evens(spread_seq(s)) =~= s);
    assert(odds(spread_seq(s)) =~= Seq::new(s.len(), |i: int| false));
}

/// `spread(b)` shifted up by one position: bit `i` of `b` at position `2i + 1`,
/// every even position zero. These are the bits of `spread(b) + spread(b)`.
pub open spec fn doubled_spread_seq(s: Seq<bool>) -> Seq<bool> {
    Seq::new(2 * s.len(), |j: int| j % 2 == 1 && s[j / 2])
}

/// Adding the spread form of a bit string to itself gives the number whose
/// bits are `doubled_spread_seq(b)`: its even bits are zero and its odd bits
/// are `b`.
pub proof fn lemma_spread_plus_itself(b: Seq<bool>)
    ensures
        bits_value(spread_seq(b)) + bits_value(spread_seq(b)) == bits_value(doubled_spread_seq(b)),
        evens(doubled_spread_seq(b)) == Seq::new(b.len(), |i: int| false),
        odds(doubled_spread_seq(b)) == b,
    decreases b.len(),
{
    assert(evens(doubled_spread_seq(b)) =~= Seq::new(b.len(), |i: int| false));
    assert(odds(doubled_spread_seq(b)) =~= b);
    if b.len() > 0 {
        let rest = b.drop_first();
        lemma_spread_plus_itself(rest);
        let sp = spread_seq(b);
        let dp = doubled_spread_seq(b);
        assert(sp.drop_first().drop_first() =~= spread_seq(rest));
        assert(dp.drop_first().drop_first() =~= doubled_spread_seq(rest));
        assert(bits_value(sp) == (if b[0] { 1nat } else { 0nat })
            + 2 * bits_value(sp.drop_first()));
        assert(bits_value(sp.drop_first()) == 0 + 2 * bits_value(sp.drop_first().drop_first()));
        assert(bits_value(dp) == 0 + 2 * bits_value(dp.drop_first()));
        assert(bits_value(dp.drop_first()) == (if b[0] { 1nat } else { 0nat }) + 2 * bits_value(
            dp.drop_first().drop_first(),
        ));
    }
}

/// Little-endian bits, at most 64 of them.
#[derive(Debug, Clone)]
pub struct Bits {
    pub bits: Vec<bool>,
}

impl View for Bits {
    type V = Seq<bool>;

    open spec fn view(&self) -> Seq<bool> {
        self.bits@
    }
}

impl Bits {
    /// The spread form of the bits.
    pub fn spread(&self) -> (r: Bits)
        requires
            self@.len() <= 64,
        ensures
            r@ == spread_seq(self@),
    {
        Bits { bits: spread_bits(&self.bits) }
    }

    /// The integer value of the bits.
    pub fn value(&self) -> (r: u128)
        requires
            self@.len() <= 64,
        ensures
            r == bits_value(self@),
    {
        lebs2ip(&self.bits)
    }
}

} // verus!
