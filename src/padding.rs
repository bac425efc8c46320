//! SHA-512 padding of a byte message into 64-bit block words: a `1` bit,
//! zero bits up to 896 modulo 1024, and the 128-bit big-endian bit length.
use vstd::prelude::*;

verus! {

/// Number of bytes of the padded message: the least multiple of 128 that
/// holds the message, the `0x80` byte and the 16 length bytes.
pub open spec fn padded_len(n: nat) -> nat {
    ((n + 17 + 127) / 128) * 128
}

/// Byte `j` of the padded message.
pub open spec fn padded_byte(m: Seq<u8>, j: int) -> u8 {
    let n = m.len();
    let p = padded_len(n);
    if j < n {
        m[j]
    } else if j == n {
        0x80u8
    } else if j >= p - 16 {
        ((((n * 8) as u128) >> ((8 * (p - 1 - j)) as u128)) & 0xFFu128) as u8
    } else {
        0u8
    }
}

/// The padded message as bytes.
pub open spec fn padded_bytes(m: Seq<u8>) -> Seq<u8> {
    Seq::new(padded_len(m.len()), |j: int| padded_byte(m, j))
}

/// The big-endian value of a byte string.
pub open spec fn be_value(s: Seq<u8>) -> nat
    decreases s.len(),
{
    if s.len() == 0 {
        0
    } else {
        be_value(s.drop_last()) * 256 + s.last() as nat
    }
}

/// `256^t`.
pub open spec fn pow256(t: nat) -> nat
    decreases t,
{
    if t == 0 {
        1
    } else {
        256 * pow256((t - 1) as nat)
    }
}

/// `256^t <= 2^64` for `t <= 8`.
proof fn lemma_pow256_le(t: nat)
    requires
        t <= 8,
    ensures
        pow256(t) <= 0x1_0000_0000_0000_0000,
    decreases 8 - t,
{
    if t == 8 {
        reveal_with_fuel(pow256, 9);
    } else {
        lemma_pow256_le(t + 1);
        assert(pow256(t + 1) == 256 * pow256(t));
    }
}

/// The padded message as big-endian 64-bit words.
pub open spec fn padded_words(m: Seq<u8>) -> Seq<u64> {
    Seq::new(
        padded_len(m.len()) / 8,
        |i: int| be_value(padded_bytes(m).subrange(8 * i, 8 * i + 8)) as u64,
    )
}

/// Pads `message` and cuts it into big-endian 64-bit words, sixteen to a block.
pub fn preprocess_message(message: &Vec<u8>) -> (r: Vec<u64>)
    requires
        message.len() <= usize::MAX - 144,
    ensures
        r@ == padded_words(message@),
        r@.len() % 16 == 0,
        r@.len() > 0,
{
    let n = message.len();
    let p = ((n + 17 + 127) / 128) * 128;
    let bit_len: u128 = (n as u128) * 8;
    let mut bytes: Vec<u8> = Vec::new();
    let mut j: usize = 0;
    while j < p
        invariant
            n == message.len(),
            n <= usize::MAX - 144,
            p == padded_len(n as nat),
            bit_len == n * 8,
            j <= p,
            bytes@.len() == j,
            forall|t: int| 0 <= t < j ==> bytes@[t] == padded_byte(message@, t),
        decreases p - j,
    {
        let b: u8 = if j < n {
            message[j]
        } else if j == n {
            0x80u8
        } else if j >= p - 16 {
            let byte = (bit_len >> ((8 * (p - 1 - j)) as u128)) & 0xFFu128;
            assert(byte < 256) by (bit_vector)
                requires
                    byte == (bit_len >> ((8 * (p - 1 - j)) as u128)) & 0xFFu128,
            ;
            byte as u8
        } else {
            0u8
        };
        bytes.push(b);
        j = j + 1;
    }
    assert(bytes@ =~= padded_bytes(message@));
    let mut words: Vec<u64> = Vec::new();
    let mut i: usize = 0;
    while i < p / 8
        invariant
            p == padded_len(n as nat),
            p % 128 == 0,
            bytes@ == padded_bytes(message@),
            bytes@.len() == p,
            i <= p / 8,
            words@.len() == i,
            forall|t: int| 0 <= t < i ==> words@[t] == padded_words(message@)[t],
        decreases p / 8 - i,
    {
        let mut w: u64 = 0;
        let mut t: usize = 0;
        while t < 8
            invariant
                bytes@.len() == p,
                i < p / 8,
                t <= 8,
                w as nat == be_value(bytes@.subrange(8 * i, 8 * i + t)),
                (w as nat) < pow256(t as nat),
            decreases 8 - t,
        {
            let b = bytes[8 * i + t];
            proof {
                let s = bytes@.subrange(8 * i, 8 * i + t + 1);
                assert(s.drop_last() =~= bytes@.subrange(8 * i, 8 * i + t));
                assert(pow256((t + 1) as nat) == 256 * pow256(t as nat));
                lemma_pow256_le((t + 1) as nat);
            }
            w = w * 256 + b as u64;
            t = t + 1;
        }
        words.push(w);
        i = i + 1;
    }
    assert(words@ =~= padded_words(message@));
    words
}

} // verus!
