//! The configuration of one derivation run: the mnemonic phrase and the
//! salt derived from the optional passphrase. The salt is only
//! constructible here and never leaves the `Config`.

use vstd::prelude::*;
use vstd::string::StringExecFns;
use crate::codec::{get_mnemonic, mnemonic_of, words_view};
use crate::word_size::MnemonicListSize;

verus! {

/// The number of space characters in a phrase.
pub open spec fn space_count(s: Seq<char>) -> nat
    decreases s.len(),
{
    if s.len() == 0 {
        0
    } else {
        space_count(s.drop_last()) + (if s.last() == ' ' {
            1nat
        } else {
            0nat
        })
    }
}

/// The number of space-separated chunks of a phrase: one more than its
/// spaces.
pub open spec fn phrase_word_count(s: Seq<char>) -> nat {
    space_count(s) + 1
}

/// The PBKDF2 salt mandated by the standard: the literal "mnemonic"
/// followed by the optional passphrase.
pub open spec fn salt_of(passphrase: Seq<char>) -> Seq<char> {
    "mnemonic"@ + passphrase
}

/// Builds the salt from the passphrase.
pub fn get_salt(passphrase: String) -> (s: String)
    ensures
        s@ == salt_of(passphrase@),
{
    let mut s = "mnemonic".to_owned();
    s.append(passphrase.as_str());
    s
}

/// What SeedDeriver consumes: a mnemonic phrase and the salt built from
/// the passphrase.
pub struct Config {
    pub mnemonic: String,
    salt: String,
}

impl Config {
    /// The mnemonic phrase, as contracts speak of it.
    pub closed spec fn spec_mnemonic(&self) -> Seq<char> {
        self.mnemonic@
    }

    /// The salt, visible to contracts alone.
    pub closed spec fn spec_salt(&self) -> Seq<char> {
        self.salt@
    }

    /// The mnemonic phrase as text.
    pub fn mnemonic_str(&self) -> (s: &str)
        ensures
            s@ == self.spec_mnemonic(),
    {
        self.mnemonic.as_str()
    }

    /// The salt as text, for the key derivation inside the crate.
    pub(crate) fn salt_str(&self) -> (s: &str)
        ensures
            s@ == self.spec_salt(),
    {
        self.salt.as_str()
    }

    /// The fresh path: a newly generated mnemonic of the chosen size. The
    /// entropy comes from the random source, so the contract names it only
    /// by existence.
    pub fn generate_from(
        word_list_size: MnemonicListSize,
        passphrase: String,
        word_list: &Vec<String>,
    ) -> (c: Config)
        requires
            word_list@.len() == 2048,
        ensures
            c.spec_salt() == salt_of(passphrase@),
            exists|e: Seq<u8>|
                e.len() == word_list_size.spec_entropy_len() && c.spec_mnemonic() == mnemonic_of(
                    word_list_size,
                    e,
                    words_view(word_list@),
                ),
    {
        Config { mnemonic: get_mnemonic(&word_list_size, word_list), salt: get_salt(passphrase) }
    }

    /// The recreation path: the caller's phrase is taken verbatim, checked
    /// against the declared size by word count alone — no checksum
    /// verification.
    pub fn new(mnemonic: String, word_list_size: MnemonicListSize, passphrase: String) -> (c:
        Config)
        requires
            phrase_word_count(mnemonic@) == word_list_size.spec_word_count(),
        ensures
            c.spec_mnemonic() == mnemonic@,
            c.spec_salt() == salt_of(passphrase@),
    {
        Config { mnemonic, salt: get_salt(passphrase) }
    }
}

} // verus!
