//! The five legal mnemonic phrase lengths, each with its entropy byte
//! length `EL` and checksum bit length `CB`.

use vstd::prelude::*;

verus! {

/// The five legal mnemonic phrase lengths. No other length is constructible.
#[derive(Clone, Copy, PartialEq, Eq, Structural, Debug)]
pub enum MnemonicListSize {
    Twelve,
    Fifteen,
    Eighteen,
    TwentyOne,
    TwentyFour,
}

impl MnemonicListSize {
    /// Number of words in a mnemonic phrase of this size.
    pub open spec fn spec_word_count(self) -> nat {
        match self {
            MnemonicListSize::Twelve => 12,
            MnemonicListSize::Fifteen => 15,
            MnemonicListSize::Eighteen => 18,
            MnemonicListSize::TwentyOne => 21,
            MnemonicListSize::TwentyFour => 24,
        }
    }

    /// Entropy byte length `EL` for this size.
    pub open spec fn spec_entropy_len(self) -> nat {
        match self {
            MnemonicListSize::Twelve => 16,
            MnemonicListSize::Fifteen => 20,
            MnemonicListSize::Eighteen => 24,
            MnemonicListSize::TwentyOne => 28,
            MnemonicListSize::TwentyFour => 32,
        }
    }

    /// Checksum bit length `CB = EL * 8 / 32 = EL / 4` for this size.
    pub open spec fn spec_checksum_bits(self) -> nat {
        self.spec_entropy_len() / 4
    }

    /// The only way to obtain a `MnemonicListSize` from an open integer:
    /// exactly 12, 15, 18, 21 and 24 are accepted.
    pub fn from(size: usize) -> (r: Result<MnemonicListSize, &'static str>)
        ensures
            r is Ok <==> (size == 12 || size == 15 || size == 18 || size == 21 || size == 24),
            r matches Ok(w) ==> w.spec_word_count() == size,
            r matches Err(m) ==> m@ == "Invalid mnemonic word list size."@,
    {
        let mnemonic_list_size = match size {
            12 => MnemonicListSize::Twelve,
            15 => MnemonicListSize::Fifteen,
            18 => MnemonicListSize::Eighteen,
            21 => MnemonicListSize::TwentyOne,
            24 => MnemonicListSize::TwentyFour,
            _ => return Err("Invalid mnemonic word list size."),
        };

        Ok(mnemonic_list_size)
    }

    /// Number of words, as a machine integer.
    pub fn word_count(&self) -> (n: usize)
        ensures
            n == self.spec_word_count(),
    {
        match self {
            MnemonicListSize::Twelve => 12,
            MnemonicListSize::Fifteen => 15,
            MnemonicListSize::Eighteen => 18,
            MnemonicListSize::TwentyOne => 21,
            MnemonicListSize::TwentyFour => 24,
        }
    }

    /// Entropy byte length, as a machine integer.
    pub fn entropy_len(&self) -> (n: usize)
        ensures
            n == self.spec_entropy_len(),
    {
        match self {
            MnemonicListSize::Twelve => 16,
            MnemonicListSize::Fifteen => 20,
            MnemonicListSize::Eighteen => 24,
            MnemonicListSize::TwentyOne => 28,
            MnemonicListSize::TwentyFour => 32,
        }
    }

    /// Checksum bit length, as a machine integer.
    pub fn checksum_bits(&self) -> (n: usize)
        ensures
            n == self.spec_checksum_bits(),
    {
        match self {
            MnemonicListSize::Twelve => 4,
            MnemonicListSize::Fifteen => 5,
            MnemonicListSize::Eighteen => 6,
            MnemonicListSize::TwentyOne => 7,
            MnemonicListSize::TwentyFour => 8,
        }
    }
}

/// The total bit stream `EL * 8 + CB` splits into 11-bit groups without
/// remainder, one group per word; the checksum always contributes at least
/// one bit.
pub proof fn lemma_word_count_bits(w: MnemonicListSize)
    ensures
        (w.spec_entropy_len() * 8 + w.spec_checksum_bits()) % 11 == 0,
        w.spec_word_count() == (w.spec_entropy_len() * 8 + w.spec_checksum_bits()) / 11,
        w.spec_word_count() * 11 == w.spec_entropy_len() * 8 + w.spec_checksum_bits(),
        w.spec_checksum_bits() >= 1,
        w.spec_checksum_bits() <= 8,
        w.spec_entropy_len() <= 32,
{
}

} // verus!
