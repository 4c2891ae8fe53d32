//! Derivation of a deterministic wallet seed and its extended root private
//! key from entropy or from a previously recorded mnemonic phrase, following
//! the BIP-39 (mnemonic) and BIP-32 (hierarchical deterministic key)
//! standards.

pub mod bits;
pub mod codec;
pub mod config;
pub mod primitives;
pub mod root_key;
pub mod seed;
pub mod word_size;

pub use config::Config;
pub use root_key::generate_root_key;
pub use seed::derive_seed_bytes;
pub use seed::generate_seed;
pub use word_size::MnemonicListSize;
