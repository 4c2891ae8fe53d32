//! Trusted wrappers around the cryptographic and encoding primitives that
//! the derivation pipeline uses. Each wrapper's contract states what the
//! outside function returns; the digests and the base58 text are named by
//! uninterpreted spec functions, since their values cannot be restated here.

use vstd::prelude::*;

verus! {

/// The SHA-256 digest of a byte sequence.
pub uninterp spec fn sha256_of(data: Seq<u8>) -> Seq<u8>;

/// The HMAC-SHA-512 authentication code of `data` under `key`.
pub uninterp spec fn hmac_sha512_of(key: Seq<u8>, data: Seq<u8>) -> Seq<u8>;

/// The PBKDF2 key of `out_len` bytes derived with HMAC-SHA-512 from the
/// UTF-8 bytes of `key` and `salt` over `iterations` rounds.
pub uninterp spec fn pbkdf2_sha512_of(
    key: Seq<char>,
    salt: Seq<char>,
    iterations: u32,
    out_len: nat,
) -> Seq<u8>;

/// The base58 rendering (Bitcoin alphabet) of a byte sequence.
pub uninterp spec fn base58_of(data: Seq<u8>) -> Seq<char>;

/// Relies on crypto::sha2::Sha256: the digest is a function of the input
/// bytes alone and is exactly 32 bytes long.
#[verifier::external_body]
pub(crate) fn sha256(data: &[u8]) -> (r: Vec<u8>)
    ensures
        r@ == sha256_of(data@),
        r@.len() == 32,
{
    let mut hasher = crypto::sha2::Sha256::new();
    crypto::digest::Digest::input(&mut hasher, data);
    let mut digest = [0u8; 32];
    crypto::digest::Digest::result(&mut hasher, &mut digest);
    digest.to_vec()
}

/// Relies on crypto::hmac::Hmac over crypto::sha2::Sha512: the code is a
/// function of key and data alone and is exactly 64 bytes long.
#[verifier::external_body]
pub(crate) fn hmac_sha512(key: &[u8], data: &[u8]) -> (r: Vec<u8>)
    ensures
        r@ == hmac_sha512_of(key@, data@),
        r@.len() == 64,
{
    let mut mac = crypto::hmac::Hmac::new(crypto::sha2::Sha512::new(), key);
    crypto::mac::Mac::input(&mut mac, data);
    let mut out = [0u8; 64];
    crypto::mac::Mac::raw_result(&mut mac, &mut out);
    out.to_vec()
}

/// Relies on crypto::pbkdf2::pbkdf2 keyed by an HMAC-SHA-512 of `key`:
/// it fills the whole output buffer with a function of key, salt,
/// iteration count and output length alone, and asserts that the
/// iteration count is positive.
#[verifier::external_body]
pub(crate) fn pbkdf2_sha512(key: &str, salt: &str, iterations: u32, out_len: usize) -> (r: Vec<
    u8,
>)
    requires
        1 <= iterations,
        out_len <= 4096,
    ensures
        r@ == pbkdf2_sha512_of(key@, salt@, iterations, out_len as nat),
        r@.len() == out_len,
{
    let mut mac = crypto::hmac::Hmac::new(crypto::sha2::Sha512::new(), key.as_bytes());
    let mut out = vec![0u8; out_len];
    crypto::pbkdf2::pbkdf2(&mut mac, salt.as_bytes(), iterations, &mut out);
    out
}

/// Relies on bs58::encode with its default (Bitcoin) alphabet: the text is
/// a function of the input bytes alone.
#[verifier::external_body]
pub(crate) fn base58_encode(data: &[u8]) -> (r: String)
    ensures
        r@ == base58_of(data@),
{
    bs58::encode(data).into_string()
}

/// One lowercase hexadecimal digit.
pub open spec fn hex_digit(v: u8) -> char
    recommends
        v < 16,
{
    if v == 0 {
        '0'
    } else if v == 1 {
        '1'
    } else if v == 2 {
        '2'
    } else if v == 3 {
        '3'
    } else if v == 4 {
        '4'
    } else if v == 5 {
        '5'
    } else if v == 6 {
        '6'
    } else if v == 7 {
        '7'
    } else if v == 8 {
        '8'
    } else if v == 9 {
        '9'
    } else if v == 10 {
        'a'
    } else if v == 11 {
        'b'
    } else if v == 12 {
        'c'
    } else if v == 13 {
        'd'
    } else if v == 14 {
        'e'
    } else {
        'f'
    }
}

/// Lowercase hexadecimal rendering of a byte sequence: two digits per
/// byte, high digit first, in byte order.
pub open spec fn hex_of(data: Seq<u8>) -> Seq<char> {
    Seq::new(
        data.len() * 2,
        |i: int|
            if i % 2 == 0 {
                hex_digit(data[i / 2] / 16)
            } else {
                hex_digit(data[i / 2] % 16)
            },
    )
}

/// Relies on hex::encode: lowercase, two digits per byte, high digit
/// first, in byte order.
#[verifier::external_body]
pub(crate) fn hex_encode(data: &[u8]) -> (r: String)
    ensures
        r@ == hex_of(data@),
{
    hex::encode(data)
}

/// Relies on rand::random, a cryptographically secure generator: nothing
/// can be said of the bytes but their number.
#[verifier::external_body]
pub(crate) fn random_bytes_32() -> (r: Vec<u8>)
    ensures
        r@.len() == 32,
{
    rand::random::<[u8; 32]>().to_vec()
}

} // verus!
