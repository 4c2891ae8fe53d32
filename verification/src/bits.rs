//! A byte sequence read as one continuous bit stream, most-significant bit
//! of each byte first, and the extraction of 11-bit groups from it. The
//! cursor is a position in the total stream, independent of byte layout, so
//! a group may span two consecutive bytes.

use vstd::prelude::*;

verus! {

/// Bit `i` of the stream: bit `7 - i % 8` of byte `i / 8`.
pub open spec fn stream_bit(data: Seq<u8>, i: int) -> bool
    recommends
        0 <= i < data.len() * 8,
{
    ((data[i / 8] >> ((7 - (i % 8)) as u8)) & 1) == 1
}

/// The unsigned integer held in the `len` stream bits that start at
/// `start`, first bit most significant.
pub open spec fn take_bits(data: Seq<u8>, start: int, len: nat) -> nat
    decreases len,
{
    if len == 0 {
        0
    } else {
        take_bits(data, start, (len - 1) as nat) * 2 + (if stream_bit(data, start + len - 1) {
            1nat
        } else {
            0nat
        })
    }
}

pub open spec fn pow2(n: nat) -> nat
    decreases n,
{
    if n == 0 {
        1
    } else {
        2 * pow2((n - 1) as nat)
    }
}

pub proof fn lemma_pow2_increases(a: nat, b: nat)
    requires
        a <= b,
    ensures
        pow2(a) <= pow2(b),
    decreases b,
{
    if a < b {
        lemma_pow2_increases(a, (b - 1) as nat);
    }
}

/// One bit of the stream, read from the bytes.
fn read_stream_bit(data: &Vec<u8>, i: usize) -> (b: bool)
    requires
        i < data@.len() * 8,
        i < usize::MAX,
    ensures
        b == stream_bit(data@, i as int),
{
    let byte: u8 = data[i / 8];
    let shift: u8 = (7 - (i % 8)) as u8;
    ((byte >> shift) & 1) == 1
}

/// The unsigned integer held in the `len` stream bits that start at
/// `start`; with at most 11 bits it is an index below 2048.
pub fn read_bit_group(data: &Vec<u8>, start: usize, len: usize) -> (v: usize)
    requires
        start + len <= data@.len() * 8,
        start + len <= usize::MAX,
        len <= 11,
    ensures
        v == take_bits(data@, start as int, len as nat),
        v < 2048,
{
    let mut v: usize = 0;
    let mut j: usize = 0;
    while j < len
        invariant
            j <= len,
            len <= 11,
            start + len <= data@.len() * 8,
            start + len <= usize::MAX,
            v == take_bits(data@, start as int, j as nat),
            v < pow2(j as nat),
        decreases len - j,
    {
        proof {
            lemma_pow2_increases(j as nat, 10);
            reveal_with_fuel(pow2, 12);
        }
        let bit = read_stream_bit(data, start + j);
        v = v * 2 + (if bit {
            1
        } else {
            0
        });
        j += 1;
    }
    proof {
        lemma_pow2_increases(len as nat, 11);
        reveal_with_fuel(pow2, 12);
    }
    v
}

} // verus!
