//! Derivation of the BIP-32 master key from the seed, and its
//! serialization: HMAC-SHA-512 under the key "Bitcoin seed" splits into
//! master private key and chain code, which are laid out in the 78-byte
//! extended-key form, checksummed with a double SHA-256, and rendered in
//! base58.

use vstd::prelude::*;
use crate::primitives::{
    base58_encode,
    base58_of,
    hmac_sha512,
    hmac_sha512_of,
    sha256,
    sha256_of,
};

verus! {

/// The ASCII bytes of "Bitcoin seed", the HMAC key mandated by the
/// standard.
pub open spec fn bitcoin_seed_key() -> Seq<u8> {
    seq![66u8, 105u8, 116u8, 99u8, 111u8, 105u8, 110u8, 32u8, 115u8, 101u8, 101u8, 100u8]
}

/// The four version bytes of a mainnet extended private key.
pub open spec fn version_prefix() -> Seq<u8> {
    seq![4u8, 136u8, 173u8, 228u8]
}

/// The 78-byte serialization of the master key derived from `seed`:
/// version prefix, one depth byte, four fingerprint bytes and four child
/// number bytes (all zero at the root), the chain code `IR`, one zero
/// marker byte, and the private key `IL`, where `IL` and `IR` are the two
/// halves of the HMAC output.
pub open spec fn serialized_master_key(seed: Seq<u8>) -> Seq<u8> {
    let h = hmac_sha512_of(bitcoin_seed_key(), seed);
    version_prefix() + seq![0u8, 0u8, 0u8, 0u8, 0u8, 0u8, 0u8, 0u8, 0u8] + h.subrange(32, 64)
        + seq![0u8] + h.subrange(0, 32)
}

/// The serialization with its checksum appended: the first four bytes of
/// the double SHA-256 of the 78 bytes.
pub open spec fn root_key_payload(seed: Seq<u8>) -> Seq<u8> {
    serialized_master_key(seed) + sha256_of(sha256_of(serialized_master_key(seed))).take(4)
}

/// The extended private key text: the checksummed serialization in
/// base58.
pub fn generate_root_key(seed: &[u8]) -> (r: String)
    requires
        seed@.len() == 64,
    ensures
        r@ == base58_of(root_key_payload(seed@)),
{
    let mut key: Vec<u8> = Vec::new();
    key.push(66);
    key.push(105);
    key.push(116);
    key.push(99);
    key.push(111);
    key.push(105);
    key.push(110);
    key.push(32);
    key.push(115);
    key.push(101);
    key.push(101);
    key.push(100);
    proof {
        assert(key@ =~= bitcoin_seed_key());
    }
    let h = hmac_sha512(key.as_slice(), seed);

    let mut data: Vec<u8> = Vec::new();
    data.push(4);
    data.push(136);
    data.push(173);
    data.push(228);
    let mut i: usize = 0;
    while i < 9
        invariant
            i <= 9,
            data@ =~= version_prefix() + Seq::new(i as nat, |k: int| 0u8),
        decreases 9 - i,
    {
        data.push(0);
        i += 1;
        proof {
            assert(data@ =~= version_prefix() + Seq::new(i as nat, |k: int| 0u8));
        }
    }
    let mut j: usize = 32;
    while j < 64
        invariant
            32 <= j <= 64,
            h@.len() == 64,
            data@ =~= version_prefix() + Seq::new(9, |k: int| 0u8) + h@.subrange(32, j as int),
        decreases 64 - j,
    {
        data.push(h[j]);
        j += 1;
        proof {
            assert(data@ =~= version_prefix() + Seq::new(9, |k: int| 0u8) + h@.subrange(
                32,
                j as int,
            ));
        }
    }
    data.push(0);
    let mut k: usize = 0;
    while k < 32
        invariant
            k <= 32,
            h@.len() == 64,
            data@ =~= version_prefix() + Seq::new(9, |k: int| 0u8) + h@.subrange(32, 64)
                + seq![0u8] + h@.subrange(0, k as int),
        decreases 32 - k,
    {
        data.push(h[k]);
        k += 1;
        proof {
            assert(data@ =~= version_prefix() + Seq::new(9, |k: int| 0u8) + h@.subrange(32, 64)
                + seq![0u8] + h@.subrange(0, k as int));
        }
    }
    proof {
        assert(Seq::new(9, |k: int| 0u8) =~= seq![0u8, 0u8, 0u8, 0u8, 0u8, 0u8, 0u8, 0u8, 0u8]);
        assert(data@ =~= serialized_master_key(seed@));
    }

    let first = sha256(data.as_slice());
    let checksum_digest = sha256(first.as_slice());
    proof {
        lemma_root_payload_checksum(seed@);
    }
    let mut c: usize = 0;
    while c < 4
        invariant
            c <= 4,
            checksum_digest@.len() == 32,
            data@ =~= serialized_master_key(seed@) + checksum_digest@.take(c as int),
        decreases 4 - c,
    {
        data.push(checksum_digest[c]);
        c += 1;
        proof {
            assert(data@ =~= serialized_master_key(seed@) + checksum_digest@.take(c as int));
        }
    }
    proof {
        assert(data@ =~= root_key_payload(seed@));
    }
    base58_encode(data.as_slice())
}

/// Law: the checksummed serialization carries its own checksum. Under the
/// documented digest lengths — 64 HMAC bytes, 32 SHA-256 bytes — the
/// payload is 82 bytes; its first 78 are the serialization, which begins
/// with the version prefix, and its last 4 are the first bytes of the
/// double SHA-256 of those 78.
pub proof fn lemma_root_payload_checksum(seed: Seq<u8>)
    requires
        seed.len() == 64,
        hmac_sha512_of(bitcoin_seed_key(), seed).len() == 64,
        sha256_of(sha256_of(serialized_master_key(seed))).len() == 32,
    ensures
        serialized_master_key(seed).len() == 78,
        root_key_payload(seed).len() == 82,
        root_key_payload(seed).subrange(0, 78) == serialized_master_key(seed),
        root_key_payload(seed).subrange(78, 82) == sha256_of(
            sha256_of(root_key_payload(seed).subrange(0, 78)),
        ).take(4),
        root_key_payload(seed).subrange(0, 4) == version_prefix(),
{
    assert(root_key_payload(seed).subrange(0, 78) =~= serialized_master_key(seed));
    assert(root_key_payload(seed).subrange(78, 82) =~= sha256_of(
        sha256_of(serialized_master_key(seed)),
    ).take(4));
    assert(root_key_payload(seed).subrange(0, 4) =~= version_prefix());
}

} // verus!
