//! Little-endian composition of bytes into words, zero padding, and the
//! NUL-terminated, 4-byte-aligned encoding of strings used by the
//! coprocessor.

use vstd::prelude::*;
use vstd::string::StringSliceAdditionalSpecFns;

verus! {

/// The 16-bit value read little-endian from two bytes.
#[verifier::allow_in_spec]
pub fn le16_of(b0: u8, b1: u8) -> u16
    returns
        (b0 as u16) | ((b1 as u16) << 8),
{
    (b0 as u16) | ((b1 as u16) << 8)
}

/// The 32-bit value read little-endian from four bytes.
#[verifier::allow_in_spec]
pub fn le32_of(b0: u8, b1: u8, b2: u8, b3: u8) -> u32
    returns
        (b0 as u32) | ((b1 as u32) << 8) | ((b2 as u32) << 16) | ((b3 as u32) << 24),
{
    (b0 as u32) | ((b1 as u32) << 8) | ((b2 as u32) << 16) | ((b3 as u32) << 24)
}

/// `n` zero bytes.
pub open spec fn zero_bytes(n: nat) -> Seq<u8> {
    Seq::new(n, |i: int| 0u8)
}

/// How many zero bytes extend a buffer of length `n` to a multiple of 4.
pub open spec fn pad_to4(n: nat) -> nat {
    (((4 - n % 4)) % 4) as nat
}

/// A buffer zero-padded to a multiple of 4 bytes.
pub open spec fn padded4(b: Seq<u8>) -> Seq<u8> {
    b + zero_bytes(pad_to4(b.len()))
}

/// The coprocessor encoding of a string: its bytes, one NUL, then zero
/// padding to a multiple of 4 bytes.
pub open spec fn string_payload(b: Seq<u8>) -> Seq<u8> {
    padded4(b.push(0u8))
}

/// The words obtained by reading a 4-byte-aligned buffer little-endian.
pub open spec fn words_of(b: Seq<u8>) -> Seq<u32> {
    Seq::new((b.len() / 4) as nat, |i: int| le32_of(b[4 * i], b[4 * i + 1], b[4 * i + 2], b[4 * i + 3]))
}

pub proof fn lemma_padded4_len(b: Seq<u8>)
    ensures
        padded4(b).len() % 4 == 0,
        padded4(b).len() < b.len() + 4,
        b.len() <= padded4(b).len(),
{
}

/// Extends `b` with zeros until its length is a multiple of 4.
pub fn pad_buffer4(b: &mut Vec<u8>)
    ensures
        final(b)@ == padded4(old(b)@),
{
    let ghost orig = b@;
    while b.len() % 4 != 0
        invariant
            b@.len() - orig.len() <= pad_to4(orig.len()),
            b@ == orig + zero_bytes((b@.len() - orig.len()) as nat),
        decreases orig.len() + pad_to4(orig.len()) - b@.len(),
    {
        proof {
            assert(b@.len() - orig.len() < pad_to4(orig.len()));
        }
        b.push(0u8);
        proof {
            assert(b@ =~= orig + zero_bytes((b@.len() - orig.len()) as nat));
        }
    }
    proof {
        assert(b@ =~= padded4(orig));
    }
}

/// Reads a 4-byte-aligned buffer as little-endian 32-bit words.
pub fn words_from_bytes(b: &[u8]) -> (r: Vec<u32>)
    requires
        b@.len() % 4 == 0,
    ensures
        r@ == words_of(b@),
{
    let mut r: Vec<u32> = Vec::new();
    let mut i: usize = 0;
    while i < b.len()
        invariant
            b@.len() % 4 == 0,
            i % 4 == 0,
            i <= b@.len(),
            r@ == words_of(b@).take((i / 4) as int),
        decreases b@.len() - i,
    {
        proof {
            assert(i + 4 <= b@.len());
        }
        let w = le32_of(b[i], b[i + 1], b[i + 2], b[i + 3]);
        r.push(w);
        i = i + 4;
        proof {
            assert(r@ =~= words_of(b@).take((i / 4) as int));
        }
    }
    proof {
        assert(r@ =~= words_of(b@));
    }
    r
}

/// The bytes of a string with NUL terminator and zero padding to a
/// multiple of 4, ready to be emitted as ring words.
pub fn string_payload_bytes(text: &str) -> (r: Vec<u8>)
    ensures
        r@ == string_payload(text.spec_bytes()),
        r@.len() % 4 == 0,
{
    let bs = text.as_bytes();
    let mut r: Vec<u8> = Vec::new();
    r.extend_from_slice(bs);
    r.push(0u8);
    proof {
        assert(r@ =~= text.spec_bytes().push(0u8));
    }
    pad_buffer4(&mut r);
    proof {
        lemma_padded4_len(text.spec_bytes().push(0u8));
    }
    r
}

} // verus!
