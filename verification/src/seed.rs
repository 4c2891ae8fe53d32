//! Stretching of a mnemonic phrase and salt into the 64-byte wallet seed:
//! PBKDF2 with HMAC-SHA-512, 2048 iterations and 64 output bytes, all
//! three mandated by the standard.

use vstd::prelude::*;
use crate::config::Config;
use crate::primitives::{hex_encode, hex_of, pbkdf2_sha512, pbkdf2_sha512_of};

verus! {

/// The seed itself: 64 bytes for every mnemonic and every passphrase,
/// the empty one included.
pub fn derive_seed_bytes(config: &Config) -> (s: Vec<u8>)
    ensures
        s@ == pbkdf2_sha512_of(config.spec_mnemonic(), config.spec_salt(), 2048, 64),
        s@.len() == 64,
{
    pbkdf2_sha512(config.mnemonic_str(), config.salt_str(), 2048, 64)
}

/// The seed rendered as lowercase hex: 128 digits for the 64 bytes.
pub fn generate_seed(config: Config) -> (r: String)
    ensures
        r@ == hex_of(pbkdf2_sha512_of(config.spec_mnemonic(), config.spec_salt(), 2048, 64)),
        r@.len() == 128,
{
    let seed = derive_seed_bytes(&config);
    hex_encode(seed.as_slice())
}

} // verus!
