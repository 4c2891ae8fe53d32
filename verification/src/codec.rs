//! Encoding of entropy bytes into a mnemonic phrase: the entropy bits,
//! followed by the top `CB` bits of the checksum byte, are split into
//! 11-bit groups, and each group indexes the 2048-entry word list.

use vstd::prelude::*;
use vstd::string::StringExecFns;
use crate::bits::{read_bit_group, take_bits};
use crate::primitives::{random_bytes_32, sha256, sha256_of};
use crate::word_size::{lemma_word_count_bits, MnemonicListSize};

verus! {

/// The bit stream that the groups are drawn from: the entropy bytes with
/// the checksum byte appended. Only the top `CB` bits of the checksum byte
/// are ever consumed; its low bits lie beyond the last group.
pub open spec fn checksum_stream(entropy: Seq<u8>) -> Seq<u8> {
    entropy.push(sha256_of(entropy)[0])
}

/// The word-list index held in 11-bit group `g` of the stream.
pub open spec fn mnemonic_index(entropy: Seq<u8>, g: int) -> nat {
    take_bits(checksum_stream(entropy), 11 * g, 11)
}

/// A term joined onto a phrase: a single separating space, except before
/// the first term.
pub open spec fn spec_append_term(phrase: Seq<char>, term: Seq<char>) -> Seq<char> {
    if phrase.len() == 0 {
        term
    } else {
        phrase + seq![' '] + term
    }
}

/// The phrase made of the words indexed by the first `n` groups.
pub open spec fn spec_phrase(entropy: Seq<u8>, words: Seq<Seq<char>>, n: int) -> Seq<char>
    decreases n,
{
    if n <= 0 {
        Seq::empty()
    } else {
        spec_append_term(
            spec_phrase(entropy, words, n - 1),
            words[mnemonic_index(entropy, n - 1) as int],
        )
    }
}

/// The mnemonic phrase of a given size encoded from entropy over a word
/// list.
pub open spec fn mnemonic_of(
    size: MnemonicListSize,
    entropy: Seq<u8>,
    words: Seq<Seq<char>>,
) -> Seq<char> {
    spec_phrase(entropy, words, size.spec_word_count() as int)
}

/// The word list as character sequences.
pub open spec fn words_view(word_list: Seq<String>) -> Seq<Seq<char>> {
    word_list.map_values(|w: String| w@)
}

/// The first byte of the SHA-256 digest of the entropy.
pub fn get_checksum_byte(entropy: &Vec<u8>) -> (b: u8)
    ensures
        b == sha256_of(entropy@)[0],
{
    let digest = sha256(entropy.as_slice());
    digest[0]
}

/// Joins one term onto the phrase built so far.
pub fn append_term(term: &str, mnemonic: &mut String)
    ensures
        final(mnemonic)@ == spec_append_term(old(mnemonic)@, term@),
{
    if mnemonic.as_str().is_empty() == false {
        mnemonic.append(" ");
        proof {
            reveal_strlit(" ");
            assert(" "@ =~= seq![' ']);
        }
    }
    mnemonic.append(term);
    proof {
        assert(final(mnemonic)@ =~= spec_append_term(old(mnemonic)@, term@));
    }
}

/// The prefix of the random sequence that serves as entropy for the
/// chosen size.
pub fn get_entropy(word_list_size: &MnemonicListSize, rand_seq: &Vec<u8>) -> (e: Vec<u8>)
    requires
        rand_seq@.len() >= word_list_size.spec_entropy_len(),
    ensures
        e@ == rand_seq@.take(word_list_size.spec_entropy_len() as int),
{
    let el = word_list_size.entropy_len();
    let mut e: Vec<u8> = Vec::new();
    let mut i: usize = 0;
    while i < el
        invariant
            i <= el,
            el == word_list_size.spec_entropy_len(),
            rand_seq@.len() >= el,
            e@ == rand_seq@.take(i as int),
        decreases el - i,
    {
        e.push(rand_seq[i]);
        i += 1;
        proof {
            assert(e@ =~= rand_seq@.take(i as int));
        }
    }
    e
}

/// Encodes entropy of the exact length for the chosen size into a
/// mnemonic phrase over a 2048-entry word list.
pub fn encode_mnemonic(
    word_list_size: &MnemonicListSize,
    entropy: &Vec<u8>,
    word_list: &Vec<String>,
) -> (m: String)
    requires
        entropy@.len() == word_list_size.spec_entropy_len(),
        word_list@.len() == 2048,
    ensures
        m@ == mnemonic_of(*word_list_size, entropy@, words_view(word_list@)),
{
    let checksum_byte = get_checksum_byte(entropy);
    let el = entropy.len();
    let mut data: Vec<u8> = Vec::new();
    let mut i: usize = 0;
    while i < el
        invariant
            i <= el,
            el == entropy@.len(),
            data@ == entropy@.take(i as int),
        decreases el - i,
    {
        data.push(entropy[i]);
        i += 1;
        proof {
            assert(data@ =~= entropy@.take(i as int));
        }
    }
    data.push(checksum_byte);
    proof {
        assert(data@ =~= checksum_stream(entropy@));
        lemma_word_count_bits(*word_list_size);
    }

    let n = word_list_size.word_count();
    let mut terms = String::new();
    let mut g: usize = 0;
    while g < n
        invariant
            g <= n,
            n == word_list_size.spec_word_count(),
            data@ == checksum_stream(entropy@),
            data@.len() == entropy@.len() + 1,
            entropy@.len() == word_list_size.spec_entropy_len(),
            11 * n <= data@.len() * 8,
            n <= 24,
            word_list@.len() == 2048,
            terms@ == spec_phrase(entropy@, words_view(word_list@), g as int),
        decreases n - g,
    {
        let idx = read_bit_group(&data, 11 * g, 11);
        append_term(word_list[idx].as_str(), &mut terms);
        proof {
            assert(words_view(word_list@)[idx as int] == word_list@[idx as int]@);
        }
        g += 1;
    }
    terms
}

/// A fresh mnemonic phrase of the chosen size: the entropy comes from the
/// random source, so only its length is known; the phrase is its encoding.
pub fn get_mnemonic(word_list_size: &MnemonicListSize, word_list: &Vec<String>) -> (m: String)
    requires
        word_list@.len() == 2048,
    ensures
        exists|e: Seq<u8>|
            e.len() == word_list_size.spec_entropy_len() && m@ == mnemonic_of(
                *word_list_size,
                e,
                words_view(word_list@),
            ),
{
    let rand_seq = random_bytes_32();
    proof {
        lemma_word_count_bits(*word_list_size);
    }
    let entropy = get_entropy(word_list_size, &rand_seq);
    let m = encode_mnemonic(word_list_size, &entropy, word_list);
    proof {
        assert(entropy@.len() == word_list_size.spec_entropy_len() && m@ == mnemonic_of(
            *word_list_size,
            entropy@,
            words_view(word_list@),
        ));
    }
    m
}

/// Encoding is deterministic: one entropy sequence has one phrase over a
/// given word list.
pub proof fn lemma_encode_deterministic(
    size: MnemonicListSize,
    e1: Seq<u8>,
    e2: Seq<u8>,
    words: Seq<Seq<char>>,
)
    requires
        e1 == e2,
    ensures
        mnemonic_of(size, e1, words) == mnemonic_of(size, e2, words),
{
}

} // verus!
