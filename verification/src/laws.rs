//! The library's laws, proved over the transcript and the device model.
//!
//! The driver maintains `wf` across every method, and `wf` includes
//! `log_ok`: the protocol limits hold of every operation ever recorded.
//! The first two laws restate what that gives for display-list writes and
//! ring-pointer updates.  The remaining laws concern the device model:
//! clearing the screen is idempotent, a shutdown stops the pixel clock
//! and the backlight before the power drops, and a text frame followed by
//! a clear leaves the ring observed empty.

use vstd::prelude::*;
use crate::events::{Ev, log_ok, ev_protocol_ok, batch_delta, batch_delta_from, poll_tail,
    is_ring_write, ring_words_of, ring_events, lemma_ring_words_concat,
    lemma_ring_words_of_ring_events, lemma_ring_words_of_polls};
use crate::ops::clear_events;
use crate::lifecycle::{shutdown_delta, shutdown_delta_from};
use crate::ring::{mask_ptr, ring_add};
use crate::device::{DeviceState, apply_evs, lemma_apply_evs4, lemma_apply_evs_concat};
use crate::regs::{RAM_DL, RAM_DL_SIZE, RAM_CMD_SIZE, REG_CMD_READ, REG_CMD_WRITE, REG_PCLK,
    REG_GPIO};

verus! {

/// Every 32-bit write into display-list RAM that a well-formed driver
/// ever records lands on a word boundary inside the 8 KiB display-list
/// RAM.  Every driver method preserves `wf`, which includes `log_ok`.
pub proof fn lemma_dl_write_aligned(d: Seq<Ev>, i: int, addr: u32, val: u32)
    requires
        log_ok(d),
        0 <= i < d.len(),
        d[i] == (Ev::Wr32 { addr, val }),
        RAM_DL <= addr < RAM_DL + RAM_DL_SIZE,
    ensures
        (addr - RAM_DL) % 4 == 0,
        addr - RAM_DL < RAM_DL_SIZE,
{
    assert(ev_protocol_ok(d[i]));
}

/// Every update of the ring write pointer that a well-formed driver ever
/// records carries a word-aligned offset inside the 4 KiB ring.
pub proof fn lemma_ring_update_aligned(d: Seq<Ev>, i: int, val: u16)
    requires
        log_ok(d),
        0 <= i < d.len(),
        d[i] == (Ev::Wr16 { addr: REG_CMD_WRITE, val }),
    ensures
        val % 4 == 0,
        val < RAM_CMD_SIZE,
{
    assert(ev_protocol_ok(d[i]));
}

/// Clearing the screen to a colour is idempotent in device state:
/// applying the same clear transcript twice leaves the device exactly as
/// applying it once.
pub proof fn lemma_clear_screen_idempotent(s: DeviceState, r: u8, g: u8, b: u8)
    ensures
        apply_evs(apply_evs(s, clear_events(r, g, b)), clear_events(r, g, b)) == apply_evs(
            s,
            clear_events(r, g, b),
        ),
{
    let d = clear_events(r, g, b);
    lemma_apply_evs4(s, d);
    let s1 = apply_evs(s, d);
    lemma_apply_evs4(s1, d);
    let s2 = apply_evs(s1, d);
    assert(s2.mem =~= s1.mem);
    assert(s2 == s1);
}

/// After a shutdown transcript, at the moment the power-down line drops
/// the pixel clock register is 0 and bit 7 of the GPIO register (the
/// backlight) is clear — and the power line was not touched earlier.
pub proof fn lemma_shutdown_order(s: DeviceState, d: Seq<Ev>)
    requires
        shutdown_delta(d),
    ensures
        d.len() == 10,
        d[8] == Ev::PdLow,
        forall|m: int| 0 <= m < 8 ==> d[m] != Ev::PdLow,
        apply_evs(s, d.take(8)).mem[REG_PCLK as int] == 0,
        apply_evs(s, d.take(8)).mem[REG_GPIO as int] & 0x80 == 0,
        apply_evs(s, d.take(8)).pd_high == s.pd_high,
{
    let g = choose|g: u8| shutdown_delta_from(d, g);
    let head = clear_events(0, 0, 0);
    let rest = seq![
        Ev::Sleep { ms: 50 },
        Ev::Rd8 { addr: REG_GPIO, val: g },
        Ev::Wr8 { addr: REG_GPIO, val: g & 0x7F },
        Ev::Wr8 { addr: REG_PCLK, val: 0 },
    ];
    assert(d.take(8) =~= head + rest);
    lemma_apply_evs_concat(s, head, rest);
    lemma_apply_evs4(s, head);
    let s4 = apply_evs(s, head);
    lemma_apply_evs4(s4, rest);
    assert((g & 0x7F) & 0x80 == 0) by (bit_vector);
}

/// A successful initialisation really saw the chip alive: its transcript
/// contains a read of REG_ID that answered 0x7C.
pub proof fn lemma_init_reads_live_chip(d: Seq<Ev>)
    requires
        crate::lifecycle::init_delta(d),
    ensures
        exists|i: int|
            0 <= i < d.len() && #[trigger] d[i] == (Ev::Rd8 { addr: crate::regs::REG_ID, val: 0x7C }),
{
    let (pd, d1, d2, bd) = choose|pd: Seq<Ev>, d1: u8, d2: u8, bd: Seq<Ev>|
        crate::lifecycle::init_delta_from(d, pd, d1, d2, bd);
    let prefix = seq![Ev::PdHigh, Ev::Sleep { ms: 50 }] + crate::lifecycle::cpu_reset_events()
        + crate::lifecycle::clock_wake_events();
    let i = prefix.len() + pd.len() - 1;
    assert(d[i] == pd[pd.len() - 1]);
    assert(d[i] == (Ev::Rd8 { addr: crate::regs::REG_ID, val: 0x7C }));
}

/// A complete coprocessor batch carries exactly its words into the ring.
pub proof fn lemma_batch_ring_words(d: Seq<Ev>, words: Seq<u32>)
    requires
        batch_delta(d, words),
    ensures
        ring_words_of(d) == words,
{
    let (raw, tail) = choose|raw: u16, tail: Seq<Ev>| batch_delta_from(d, raw, words, tail);
    let start = mask_ptr(raw);
    let head = seq![Ev::Rd16 { addr: REG_CMD_WRITE, val: raw }];
    let publish = seq![
        Ev::Wr16 { addr: REG_CMD_WRITE, val: ring_add(start, words.len() as int) },
    ];
    lemma_ring_words_concat(head + ring_events(start, words) + publish, tail);
    lemma_ring_words_concat(head + ring_events(start, words), publish);
    lemma_ring_words_concat(head, ring_events(start, words));
    lemma_ring_words_of_ring_events(start, words);
    assert(ring_words_of(Seq::<Ev>::empty()) == Seq::<u32>::empty());
    assert(head.drop_last() =~= Seq::<Ev>::empty());
    assert(!is_ring_write(head.last()));
    assert(ring_words_of(head) =~= Seq::<u32>::empty());
    assert(publish.drop_last() =~= Seq::<Ev>::empty());
    assert(!is_ring_write(publish.last()));
    assert(ring_words_of(publish) =~= Seq::<u32>::empty());
    let v = choose|v: u16| #[trigger] poll_tail(tail, v, v);
    lemma_ring_words_of_polls(tail);
    assert(ring_words_of(d) =~= words);
}

/// A write that touches the command ring: a ring word or an update of
/// the ring write pointer.
pub open spec fn ring_touching(e: Ev) -> bool {
    ||| is_ring_write(e)
    ||| e matches Ev::Wr16 { addr, val } && addr == REG_CMD_WRITE
}

/// At position `k` the transcript observed both ring pointers equal to
/// `v`, and nothing after that touched the ring.
pub open spec fn ring_settled_at(d: Seq<Ev>, k: int, v: u16) -> bool {
    &&& 0 <= k && k + 2 <= d.len()
    &&& d[k] == (Ev::Rd16 { addr: REG_CMD_READ, val: v })
    &&& d[k + 1] == (Ev::Rd16 { addr: REG_CMD_WRITE, val: v })
    &&& forall|m: int| k + 2 <= m < d.len() ==> !ring_touching(#[trigger] d[m])
}

/// The transcript last observed the ring drained, and left it untouched
/// afterwards.
pub open spec fn ring_settled(d: Seq<Ev>) -> bool {
    exists|k: int, v: u16| #[trigger] ring_settled_at(d, k, v)
}

/// A text (or any other) coprocessor batch followed by a clear leaves the
/// ring observed drained: the batch ends waiting for
/// `REG_CMD_READ == REG_CMD_WRITE`, and a clear writes only display-list
/// RAM and the swap register.
pub proof fn lemma_batch_then_clear_settles_ring(
    d1: Seq<Ev>,
    ws: Seq<u32>,
    r: u8,
    g: u8,
    b: u8,
)
    requires
        batch_delta(d1, ws),
    ensures
        ring_settled(d1 + clear_events(r, g, b)),
{
    let (raw, tail) = choose|raw: u16, tail: Seq<Ev>| batch_delta_from(d1, raw, ws, tail);
    let v = choose|v: u16| #[trigger] poll_tail(tail, v, v);
    let d = d1 + clear_events(r, g, b);
    let k = d1.len() - 2;
    assert(d1[k] == tail[tail.len() - 2]);
    assert(d1[k + 1] == tail[tail.len() - 1]);
    assert(d[k] == d1[k]);
    assert(d[k + 1] == d1[k + 1]);
    assert forall|m: int| k + 2 <= m < d.len() implies !ring_touching(#[trigger] d[m]) by {
        assert(d[m] == clear_events(r, g, b)[m - d1.len()]);
    }
    assert(ring_settled_at(d, k, v));
}

} // verus!
