use sha2::{Digest, Sha512 as ReferenceSha512};
use sha512_halo2::padding::preprocess_message;
use sha512_halo2::reference::iv_word;
use sha512_halo2::sha512::{sha512_message, Sha512, Table16Chip};

fn words_to_hex(words: &[u64]) -> String {
    let mut out = String::new();
    for w in words {
        out.push_str(&format!("{:016x}", w));
    }
    out
}

fn reference_hex(message: &[u8]) -> String {
    let d = ReferenceSha512::digest(message);
    let mut out = String::new();
    for b in d.iter() {
        out.push_str(&format!("{:02x}", b));
    }
    out
}

fn core_hex(message: &[u8]) -> String {
    words_to_hex(&sha512_message(&message.to_vec()))
}

#[test]
fn test_preproces_msg() {
    let message = "0123456789ABCDEF0123456789ABCCDEF0123456789ABCDEF0123456789ABCDEF0123456789ABCDEF0123456789ABCDEF0123456789ABCDEF0123456789ABCDEF".to_string();
    let words = preprocess_message(&message.as_bytes().to_vec());
    assert_eq!(words.len() % 16, 0);
    assert_eq!(words.len(), 32);
    assert_eq!(words[0], 0x3031323334353637);
    assert_eq!(*words.last().unwrap(), (message.len() as u64) * 8);
}

#[test]
fn sha512_test() {
    let message = "0123456789ABCDEF0123456789ABCCDEF0123456789ABCDEF0123456789ABCDEF0123456789ABCDEF0123456789ABCDEF0123456789ABCDEF0123456789ABCDEF";
    let words = preprocess_message(&message.as_bytes().to_vec());
    let digest = Sha512::digest(Table16Chip, &words);
    assert_eq!(words_to_hex(&digest), reference_hex(message.as_bytes()));
}

#[test]
fn digest_of_empty_message() {
    assert_eq!(
        core_hex(b""),
        "cf83e1357eefb8bdf1542850d66d8007d620e4050b5715dc83f4a921d36ce9ce47d0d13c5d85f2b0ff8318d2877eec2f63b931bd47417a81a538327af927da3e"
    );
}

#[test]
fn digest_of_abc() {
    assert_eq!(
        core_hex(b"abc"),
        "ddaf35a193617abacc417349ae20413112e6fa4e89a97ea20a9eeee64b55d39a2192992a274fc1a836ba3c23a3feebbd454d4423643ce80e2a9ac94fa54ca49f"
    );
}

#[test]
fn digest_of_million_a() {
    let message = vec![b'a'; 1_000_000];
    assert_eq!(
        core_hex(&message),
        "e718483d0ce769644e2e42c7bc15b4638e1f98b13b2044285632a803afa973ebde0ff244877ea60a4cb0432ce577c31beb009c5c2c49aa2e4eadb217ad8cc09b"
    );
}

#[test]
fn digest_of_two_block_vector() {
    let message = b"abcdefghbcdefghicdefghijdefghijkefghijklfghijklmghijklmnhijklmnoijklmnopjklmnopqklmnopqrlmnopqrsmnopqrstnopqrstu";
    assert_eq!(core_hex(message), reference_hex(message));
    assert!(core_hex(message).starts_with("8e959b75dae313da8cf4f72814fc143f8f7779c6eb9f7fa17299aead"));
}

#[test]
fn digest_at_padding_boundary() {
    let message = vec![0u8; 111];
    assert_eq!(preprocess_message(&message).len(), 16);
    assert_eq!(core_hex(&message), reference_hex(&message));
    let message = vec![0u8; 112];
    assert_eq!(preprocess_message(&message).len(), 32);
    assert_eq!(core_hex(&message), reference_hex(&message));
}

#[test]
fn digest_matches_reference_for_many_lengths() {
    for len in 0..300usize {
        let message: Vec<u8> = (0..len).map(|i| (i * 37 + 11) as u8).collect();
        assert_eq!(core_hex(&message), reference_hex(&message), "length {}", len);
    }
}

#[test]
fn hasher_with_split_updates() {
    let message = vec![0x61u8; 300];
    let words = preprocess_message(&message);
    let mut hasher = Sha512::new(Table16Chip);
    hasher.update(&words[..5].to_vec());
    hasher.update(&words[5..21].to_vec());
    hasher.update(&words[21..].to_vec());
    assert_eq!(words_to_hex(&hasher.finalize()), reference_hex(&message));
}

#[test]
fn finalize_zero_pads_partial_block() {
    let mut padded = vec![1u64, 2, 3];
    padded.extend(std::iter::repeat(0u64).take(13));
    let a = Sha512::digest(Table16Chip, &vec![1u64, 2, 3]);
    let b = Sha512::digest(Table16Chip, &padded);
    assert_eq!(a, b);
}

#[test]
fn digest_of_no_words_is_the_initial_value() {
    let d = Sha512::digest(Table16Chip, &vec![]);
    let iv: Vec<u64> = (0..8).map(iv_word).collect();
    assert_eq!(d, iv);
    assert_eq!(d[0], 0x6a09e667f3bcc908);
    assert_eq!(d[7], 0x5be0cd19137e2179);
}
