//! Arithmetic of the 4 KiB coprocessor command ring.
//!
//! Offsets into the ring are multiples of 4 below 4096.  The free space
//! seen by the host is `(rd - wr - 4) mod 4096`: one word is kept apart so
//! a full ring never looks empty.  The subtraction is done with unsigned
//! wrap-around, exactly as the device expects.

use vstd::prelude::*;
use vstd::arithmetic::div_mod::{lemma_mod_bound, lemma_mod_multiples_vanish};

verus! {

/// A well-formed ring offset: word-aligned and inside the 4 KiB ring.
pub open spec fn ptr_ok(p: u16) -> bool {
    p % 4 == 0 && p < 4096
}

/// Masks a raw REG_CMD_WRITE / REG_CMD_READ value to a well-formed ring
/// offset.  The registers hold 12-bit word-aligned offsets, so on a healthy
/// device this changes nothing.
#[verifier::allow_in_spec]
pub fn mask_ptr(raw: u16) -> u16
    returns
        raw & 0x0FFC,
{
    raw & 0x0FFC
}

pub proof fn lemma_mask_ptr_ok(raw: u16)
    ensures
        ptr_ok(mask_ptr(raw)),
        ptr_ok(raw) ==> mask_ptr(raw) == raw,
{
    assert((raw & 0x0FFC) % 4 == 0 && (raw & 0x0FFC) < 4096 && (raw % 4 == 0 && raw < 4096
        ==> (raw & 0x0FFC) == raw)) by (bit_vector);
}

/// The ring offset `words` 32-bit words past `p`.
pub open spec fn ring_add(p: u16, words: int) -> u16 {
    ((p + 4 * words) % 4096) as u16
}

pub proof fn lemma_ring_add_ok(p: u16, words: int)
    requires
        ptr_ok(p),
        0 <= words,
    ensures
        ptr_ok(ring_add(p, words)),
        ring_add(p, words + 1) == ring_add(ring_add(p, words), 1),
{
    let x = p + 4 * words;
    let m = 4096int;
    lemma_mod_bound(x, m);
    vstd::arithmetic::div_mod::lemma_fundamental_div_mod(x, m);
    vstd::arithmetic::div_mod::lemma_fundamental_div_mod(p as int, 4);
    let d = x / m;
    let q = x % m;
    assert(q == 4 * (p / 4 + words - 1024 * d));
    assert(q % 4 == 0) by {
        vstd::arithmetic::div_mod::lemma_mod_multiples_basic(p / 4 + words - 1024 * d, 4);
    };
    assert(q + 4 == m * (-d) + (x + 4));
    lemma_mod_multiples_vanish(-d, x + 4, m);
}

/// Advances a ring offset by one word, wrapping at 4 KiB.
pub fn next_ptr(p: u16) -> (r: u16)
    requires
        ptr_ok(p),
    ensures
        r == ring_add(p, 1),
        ptr_ok(r),
{
    let r = (p + 4) % 4096;
    proof {
        lemma_ring_add_ok(p, 0);
        assert(ring_add(p, 0) == p);
        assert(ring_add(p, 1) == ring_add(p, 0int + 1));
    }
    r
}

/// The space the host may fill, given the read and write offsets last seen:
/// `(rd - wr - 4) mod 4096`.
pub open spec fn spec_free(rd: u16, wr: u16) -> int {
    (rd - wr - 4) % 4096
}

/// Computes the free space with unsigned wrap-around subtraction, exactly
/// as `(rd - wr - 4) mod 4096` over the integers.
pub fn free_space(rd: u16, wr: u16) -> (f: u32)
    ensures
        f == spec_free(rd, wr),
        f < 4096,
{
    let f = (rd as u32).wrapping_sub(wr as u32).wrapping_sub(4) % 4096;
    proof {
        let a = rd as int;
        let b = wr as int;
        let t1: int = if a - b < 0 {
            a - b + 0x1_0000_0000
        } else {
            a - b
        };
        let t2: int = if t1 - 4 < 0 {
            t1 - 4 + 0x1_0000_0000
        } else {
            t1 - 4
        };
        lemma_mod_bound(a - b - 4, 4096);
        if t2 == a - b - 4 {
        } else if t2 == a - b - 4 + 0x1_0000_0000 {
            lemma_mod_multiples_vanish(0x100000, a - b - 4, 4096);
        } else {
            assert(t2 == a - b - 4 + 2 * 0x1_0000_0000);
            lemma_mod_multiples_vanish(2int * 0x100000, a - b - 4, 4096);
        }
    }
    f
}

} // verus!
