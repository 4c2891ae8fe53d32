use bip_39::bits::read_bit_group;
use bip_39::codec::{append_term, encode_mnemonic, get_checksum_byte, get_entropy, get_mnemonic};
use bip_39::MnemonicListSize;
use crypto::digest::Digest;

fn sha256_bytes(data: &[u8]) -> [u8; 32] {
    let mut hasher = crypto::sha2::Sha256::new();
    hasher.input(data);
    let mut digest = [0u8; 32];
    hasher.result(&mut digest);
    digest
}

/// A 2048-entry word list whose word at index `i` is the text of `i`,
/// so a phrase spells out the indices it was built from.
fn numbered_word_list() -> Vec<String> {
    let mut words: Vec<String> = Vec::new();
    for i in 0..2048u32 {
        words.push(i.to_string());
    }
    words
}

/// The indices a mnemonic should be built from, computed bit by bit and
/// independently of the library: entropy bits then checksum bits, split
/// into 11-bit groups, most significant bit first.
fn expected_indices(entropy: &[u8], word_count: usize) -> Vec<usize> {
    let mut stream: Vec<u8> = entropy.to_vec();
    stream.push(sha256_bytes(entropy)[0]);
    let mut indices: Vec<usize> = Vec::new();
    for g in 0..word_count {
        let mut v: usize = 0;
        for j in 0..11 {
            let pos = 11 * g + j;
            let bit = (stream[pos / 8] >> (7 - (pos % 8))) & 1;
            v = v * 2 + bit as usize;
        }
        indices.push(v);
    }
    indices
}

fn entropy_pattern(len: usize) -> Vec<u8> {
    let mut entropy: Vec<u8> = Vec::new();
    for i in 0..len {
        entropy.push((i as u8).wrapping_mul(37).wrapping_add(0x5a));
    }
    entropy
}

fn expected_phrase(indices: &[usize]) -> String {
    let mut phrase = String::new();
    for idx in indices {
        if !phrase.is_empty() {
            phrase.push(' ');
        }
        phrase.push_str(&idx.to_string());
    }
    phrase
}

#[test]
fn from_accepts_the_five_sizes() {
    assert_eq!(MnemonicListSize::from(12).unwrap(), MnemonicListSize::Twelve);
    assert_eq!(MnemonicListSize::from(15).unwrap(), MnemonicListSize::Fifteen);
    assert_eq!(MnemonicListSize::from(18).unwrap(), MnemonicListSize::Eighteen);
    assert_eq!(MnemonicListSize::from(21).unwrap(), MnemonicListSize::TwentyOne);
    assert_eq!(MnemonicListSize::from(24).unwrap(), MnemonicListSize::TwentyFour);
}

#[test]
fn from_rejects_other_sizes() {
    for bad in [0usize, 1, 11, 13, 16, 20, 23, 25, 32, 100] {
        let r = MnemonicListSize::from(bad);
        assert_eq!(r.unwrap_err(), "Invalid mnemonic word list size.");
    }
}

#[test]
fn entropy_and_checksum_lengths() {
    let table = [
        (MnemonicListSize::Twelve, 12usize, 16usize, 4usize),
        (MnemonicListSize::Fifteen, 15, 20, 5),
        (MnemonicListSize::Eighteen, 18, 24, 6),
        (MnemonicListSize::TwentyOne, 21, 28, 7),
        (MnemonicListSize::TwentyFour, 24, 32, 8),
    ];
    for (size, words, el, cb) in table {
        assert_eq!(size.word_count(), words);
        assert_eq!(size.entropy_len(), el);
        assert_eq!(size.checksum_bits(), cb);
        assert!(size.checksum_bits() >= 1);
        assert_eq!(el * 8 + cb, 11 * words);
    }
}

#[test]
fn checksum_byte_is_first_sha256_byte() {
    let entropy = vec![0u8; 32];
    let byte = get_checksum_byte(&entropy);
    assert_eq!(byte, sha256_bytes(&entropy)[0]);
    assert_eq!(byte, 0x66);
}

#[test]
fn zero_entropy_reference_phrase() {
    // The standard zero-entropy vector for 24 words: 23 times the word at
    // index 0 and then the word at index 102 of the English list.
    let mut words: Vec<String> = Vec::new();
    for _ in 0..2048 {
        words.push("filler".to_string());
    }
    words[0] = "abandon".to_string();
    words[102] = "art".to_string();

    let entropy = vec![0u8; 32];
    let phrase = encode_mnemonic(&MnemonicListSize::TwentyFour, &entropy, &words);
    let mut reference = String::new();
    for _ in 0..23 {
        reference.push_str("abandon ");
    }
    reference.push_str("art");
    assert_eq!(phrase, reference);
}

#[test]
fn encoding_is_deterministic() {
    let words = numbered_word_list();
    let entropy = entropy_pattern(20);
    let first = encode_mnemonic(&MnemonicListSize::Fifteen, &entropy, &words);
    let second = encode_mnemonic(&MnemonicListSize::Fifteen, &entropy, &words);
    assert_eq!(first, second);
}

#[test]
fn group_splitting_for_every_size() {
    let words = numbered_word_list();
    for size in [
        MnemonicListSize::Twelve,
        MnemonicListSize::Fifteen,
        MnemonicListSize::Eighteen,
        MnemonicListSize::TwentyOne,
        MnemonicListSize::TwentyFour,
    ] {
        let entropy = entropy_pattern(size.entropy_len());
        let phrase = encode_mnemonic(&size, &entropy, &words);
        let indices = expected_indices(&entropy, size.word_count());
        assert_eq!(phrase, expected_phrase(&indices));
    }
}

#[test]
fn fresh_mnemonic_has_the_requested_word_count() {
    let words = numbered_word_list();
    for size in [MnemonicListSize::Twelve, MnemonicListSize::TwentyFour] {
        let phrase = get_mnemonic(&size, &words);
        let terms: Vec<&str> = phrase.split(' ').collect();
        assert_eq!(terms.len(), size.word_count());
        for term in terms {
            let idx: usize = term.parse().unwrap();
            assert!(idx < 2048);
        }
    }
}

#[test]
fn read_bit_group_spans_byte_boundaries() {
    let data = vec![0b1000_0000u8, 0b0000_0001u8, 0xff];
    // Bits 0..11: 1000 0000 000 -> 1024.
    assert_eq!(read_bit_group(&data, 0, 11), 1024);
    // Bits 5..16: 000 0000 0001 -> 1.
    assert_eq!(read_bit_group(&data, 5, 11), 1);
    // Bits 13..24: 001 1111 1111 -> 511.
    assert_eq!(read_bit_group(&data, 13, 11), 511);
}

#[test]
fn append_term_separates_with_single_spaces() {
    let mut phrase = String::new();
    append_term("alpha", &mut phrase);
    assert_eq!(phrase, "alpha");
    append_term("beta", &mut phrase);
    assert_eq!(phrase, "alpha beta");
}

#[test]
fn get_entropy_takes_the_prefix() {
    let rand_seq: Vec<u8> = (0u8..32).collect();
    let entropy = get_entropy(&MnemonicListSize::Twelve, &rand_seq);
    assert_eq!(entropy, (0u8..16).collect::<Vec<u8>>());
    let entropy24 = get_entropy(&MnemonicListSize::TwentyFour, &rand_seq);
    assert_eq!(entropy24, rand_seq);
}
