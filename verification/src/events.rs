//! The ghost transcript of device operations.
//!
//! Every driver method appends to a ghost log the operations it performs on
//! the wire: register writes and reads, bulk writes, host commands, the
//! power-down line, and sleeps.  Contracts of the driver are stated as
//! exact descriptions of the appended transcript, and the library's
//! protocol invariants are properties of every log the driver can produce.

use vstd::prelude::*;
use crate::regs::{RAM_CMD, RAM_DL, RAM_DL_SIZE, RAM_CMD_SIZE, RAM_G_SIZE, REG_CMD_READ,
    REG_CMD_WRITE};
use crate::ring::{ring_add, mask_ptr};

verus! {

/// One operation performed on the wire, as the driver's transcript records
/// it.  Read events record the value the device answered.
#[allow(inconsistent_fields)]
pub enum Ev {
    Wr8 { addr: u32, val: u8 },
    Wr16 { addr: u32, val: u16 },
    Wr32 { addr: u32, val: u32 },
    WrBulk { addr: u32, data: Seq<u8> },
    HostCmd { cmd: u8 },
    Rd8 { addr: u32, val: u8 },
    Rd16 { addr: u32, val: u16 },
    Rd32 { addr: u32, val: u32 },
    PdHigh,
    PdLow,
    Sleep { ms: u32 },
}

/// The protocol limits that every recorded operation obeys: a 32-bit write
/// into display-list RAM lands on a word boundary; a 32-bit write into the
/// command ring lands on a word boundary; a ring-pointer register is only
/// ever set to a word-aligned offset inside the ring; a bulk write stays
/// inside graphics RAM.
pub open spec fn ev_protocol_ok(e: Ev) -> bool {
    match e {
        Ev::Wr16 { addr, val } => (addr == REG_CMD_WRITE || addr == REG_CMD_READ) ==> (val % 4
            == 0 && val < RAM_CMD_SIZE),
        Ev::Wr32 { addr, val } => {
            &&& (RAM_DL <= addr < RAM_DL + RAM_DL_SIZE ==> (addr - RAM_DL) % 4 == 0)
            &&& (RAM_CMD <= addr < RAM_CMD + RAM_CMD_SIZE ==> (addr - RAM_CMD) % 4 == 0)
        },
        Ev::WrBulk { addr, data } => addr + data.len() <= RAM_G_SIZE,
        _ => true,
    }
}

/// Every operation in the log obeys the protocol limits.
pub open spec fn log_ok(d: Seq<Ev>) -> bool {
    forall|i: int| 0 <= i < d.len() ==> ev_protocol_ok(#[trigger] d[i])
}

/// The events of writing `words` into the command ring one after another,
/// starting at ring offset `start` and wrapping at 4 KiB.
pub open spec fn ring_events(start: u16, words: Seq<u32>) -> Seq<Ev> {
    Seq::new(
        words.len(),
        |i: int| Ev::Wr32 { addr: (RAM_CMD + ring_add(start, i)) as u32, val: words[i] },
    )
}

/// An event a ring poll may record: a read of one of the two ring pointer
/// registers, or a sleep between poll rounds.
pub open spec fn ring_poll_ev(e: Ev) -> bool {
    ||| e matches Ev::Rd16 { addr, val } && (addr == REG_CMD_READ || addr == REG_CMD_WRITE)
    ||| e matches Ev::Sleep { ms }
}

/// A transcript of a poll loop over the ring pointers whose final round
/// observed `REG_CMD_READ == rd` and then `REG_CMD_WRITE == wr`.
pub open spec fn poll_tail(d: Seq<Ev>, rd: u16, wr: u16) -> bool {
    &&& d.len() >= 2
    &&& (forall|i: int| 0 <= i < d.len() ==> ring_poll_ev(#[trigger] d[i]))
    &&& d[d.len() - 2] == (Ev::Rd16 { addr: REG_CMD_READ, val: rd })
    &&& d[d.len() - 1] == (Ev::Rd16 { addr: REG_CMD_WRITE, val: wr })
}

/// A transcript of a successful completion wait: only ring polls, and the
/// last round saw the coprocessor catch up (`rd == wr`).
pub open spec fn synced_tail(d: Seq<Ev>) -> bool {
    exists|v: u16| #[trigger] poll_tail(d, v, v)
}

/// The transcript of one coprocessor batch carrying `words`: read the ring
/// write pointer, write the words into the ring in order, publish the new
/// write pointer, then wait until the coprocessor has consumed everything.
pub open spec fn batch_delta_from(d: Seq<Ev>, raw: u16, words: Seq<u32>, tail: Seq<Ev>) -> bool {
    &&& d == seq![Ev::Rd16 { addr: REG_CMD_WRITE, val: raw }] + ring_events(mask_ptr(raw), words)
        + seq![
        Ev::Wr16 { addr: REG_CMD_WRITE, val: ring_add(mask_ptr(raw), words.len() as int) },
    ] + tail
    &&& synced_tail(tail)
}

/// `d` is the transcript of one complete coprocessor batch carrying
/// exactly `words`.
pub open spec fn batch_delta(d: Seq<Ev>, words: Seq<u32>) -> bool {
    exists|raw: u16, tail: Seq<Ev>| #[trigger] batch_delta_from(d, raw, words, tail)
}

/// The portion of `d` appended after a prefix of length `n`.
pub open spec fn delta(old_log: Seq<Ev>, new_log: Seq<Ev>) -> Seq<Ev> {
    new_log.skip(old_log.len() as int)
}

/// A 32-bit write into the command ring.
pub open spec fn is_ring_write(e: Ev) -> bool {
    e matches Ev::Wr32 { addr, val } && RAM_CMD <= addr < RAM_CMD + RAM_CMD_SIZE
}

/// The value a ring write carries.
pub open spec fn ring_write_val(e: Ev) -> u32 {
    match e {
        Ev::Wr32 { addr, val } => val,
        _ => 0,
    }
}

/// The ring words a transcript carries, in order: the values of its
/// 32-bit writes into the command ring.
pub open spec fn ring_words_of(d: Seq<Ev>) -> Seq<u32>
    decreases d.len(),
{
    if d.len() == 0 {
        Seq::empty()
    } else {
        let rest = ring_words_of(d.drop_last());
        if is_ring_write(d.last()) {
            rest.push(ring_write_val(d.last()))
        } else {
            rest
        }
    }
}

pub proof fn lemma_ring_words_push(d: Seq<Ev>, e: Ev)
    ensures
        is_ring_write(e) ==> ring_words_of(d.push(e)) == ring_words_of(d).push(ring_write_val(e)),
        !is_ring_write(e) ==> ring_words_of(d.push(e)) == ring_words_of(d),
{
    assert(d.push(e).drop_last() =~= d);
    assert(d.push(e).last() == e);
}

pub proof fn lemma_ring_words_concat(a: Seq<Ev>, b: Seq<Ev>)
    ensures
        ring_words_of(a + b) == ring_words_of(a) + ring_words_of(b),
    decreases b.len(),
{
    if b.len() == 0 {
        assert(a + b =~= a);
        assert(ring_words_of(a) + ring_words_of(b) =~= ring_words_of(a));
    } else {
        lemma_ring_words_concat(a, b.drop_last());
        assert((a + b).drop_last() =~= a + b.drop_last());
        assert((a + b).last() == b.last());
        assert(ring_words_of(a) + ring_words_of(b) =~= if is_ring_write(b.last()) {
            (ring_words_of(a) + ring_words_of(b.drop_last())).push(ring_write_val(b.last()))
        } else {
            ring_words_of(a) + ring_words_of(b.drop_last())
        });
    }
}

/// A transcript of ring polls carries no ring words.
pub proof fn lemma_ring_words_of_polls(d: Seq<Ev>)
    requires
        forall|i: int| 0 <= i < d.len() ==> ring_poll_ev(#[trigger] d[i]),
    ensures
        ring_words_of(d) == Seq::<u32>::empty(),
    decreases d.len(),
{
    if d.len() > 0 {
        assert(ring_poll_ev(d[d.len() - 1]));
        assert forall|i: int| 0 <= i < d.drop_last().len() implies ring_poll_ev(
            #[trigger] d.drop_last()[i],
        ) by {
            assert(ring_poll_ev(d[i]));
        }
        lemma_ring_words_of_polls(d.drop_last());
    }
}

/// Writing `words` into the ring carries exactly `words`, whatever the
/// start offset.
pub proof fn lemma_ring_words_of_ring_events(start: u16, words: Seq<u32>)
    ensures
        ring_words_of(ring_events(start, words)) == words,
    decreases words.len(),
{
    if words.len() == 0 {
        assert(ring_events(start, words) =~= Seq::<Ev>::empty());
        assert(ring_words_of(ring_events(start, words)) =~= words);
    } else {
        let d = ring_events(start, words);
        assert(d.drop_last() =~= ring_events(start, words.drop_last()));
        lemma_ring_words_of_ring_events(start, words.drop_last());
        let k = words.len() - 1;
        vstd::arithmetic::div_mod::lemma_mod_bound(start + 4 * k, 4096);
        assert(is_ring_write(d.last()));
        assert(ring_words_of(d) =~= words);
    }
}

/// An event a streaming upload may record: a ring write, a publish of the
/// ring write pointer, or a ring poll.
pub open spec fn stream_ev(e: Ev) -> bool {
    ||| is_ring_write(e)
    ||| e matches Ev::Wr16 { addr, val } && addr == REG_CMD_WRITE
    ||| ring_poll_ev(e)
}

/// The final round of `d` observed the coprocessor caught up:
/// its last two events read equal ring pointers.
pub open spec fn ends_synced_at(d: Seq<Ev>, v: u16) -> bool {
    &&& d.len() >= 2
    &&& d[d.len() - 2] == (Ev::Rd16 { addr: REG_CMD_READ, val: v })
    &&& d[d.len() - 1] == (Ev::Rd16 { addr: REG_CMD_WRITE, val: v })
}

pub open spec fn ends_synced(d: Seq<Ev>) -> bool {
    exists|v: u16| #[trigger] ends_synced_at(d, v)
}

/// Appending one streaming event: the old log stays a prefix, the
/// appended portion gains the event, and the ring words gain its value if
/// it is a ring write.
pub proof fn lemma_stream_push(base: Seq<Ev>, cur: Seq<Ev>, e: Ev)
    requires
        base.is_prefix_of(cur),
        forall|i: int| 0 <= i < delta(base, cur).len() ==> stream_ev(#[trigger] delta(base, cur)[i]),
        stream_ev(e),
    ensures
        base.is_prefix_of(cur.push(e)),
        delta(base, cur.push(e)) == delta(base, cur).push(e),
        forall|i: int|
            0 <= i < delta(base, cur.push(e)).len() ==> stream_ev(
                #[trigger] delta(base, cur.push(e))[i],
            ),
        is_ring_write(e) ==> ring_words_of(delta(base, cur.push(e))) == ring_words_of(
            delta(base, cur),
        ).push(ring_write_val(e)),
        !is_ring_write(e) ==> ring_words_of(delta(base, cur.push(e))) == ring_words_of(
            delta(base, cur),
        ),
{
    lemma_delta_push(base, cur, e);
    lemma_ring_words_push(delta(base, cur), e);
    assert forall|i: int| 0 <= i < delta(base, cur.push(e)).len() implies stream_ev(
        #[trigger] delta(base, cur.push(e))[i],
    ) by {
        if i < delta(base, cur).len() {
            assert(stream_ev(delta(base, cur)[i]));
        }
    }
}

/// Appending a whole streaming transcript at once.
pub proof fn lemma_stream_concat(base: Seq<Ev>, cur: Seq<Ev>, d2: Seq<Ev>)
    requires
        base.is_prefix_of(cur),
        forall|i: int| 0 <= i < delta(base, cur).len() ==> stream_ev(#[trigger] delta(base, cur)[i]),
        forall|i: int| 0 <= i < d2.len() ==> stream_ev(#[trigger] d2[i]),
    ensures
        base.is_prefix_of(cur + d2),
        delta(base, cur + d2) == delta(base, cur) + d2,
        forall|i: int|
            0 <= i < delta(base, cur + d2).len() ==> stream_ev(#[trigger] delta(base, cur + d2)[i]),
        ring_words_of(delta(base, cur + d2)) == ring_words_of(delta(base, cur)) + ring_words_of(d2),
{
    assert(base =~= (cur + d2).subrange(0, base.len() as int));
    assert(delta(base, cur + d2) =~= delta(base, cur) + d2);
    lemma_ring_words_concat(delta(base, cur), d2);
    assert forall|i: int| 0 <= i < delta(base, cur + d2).len() implies stream_ev(
        #[trigger] delta(base, cur + d2)[i],
    ) by {
        if i < delta(base, cur).len() {
            assert(stream_ev(delta(base, cur)[i]));
        } else {
            assert(delta(base, cur + d2)[i] == d2[i - delta(base, cur).len()]);
            assert(stream_ev(d2[i - delta(base, cur).len()]));
        }
    }
}

/// The transcript of streaming a zlib payload to the coprocessor's
/// INFLATE command: every event is a ring write, a publish or a ring poll;
/// the ring words are exactly CMD_INFLATE, the destination, and the
/// payload padded to a word boundary; and the transcript ends with the
/// coprocessor caught up.
pub open spec fn inflate_delta(d: Seq<Ev>, dest: u32, payload: Seq<u8>) -> bool {
    &&& forall|i: int| 0 <= i < d.len() ==> stream_ev(#[trigger] d[i])
    &&& ring_words_of(d) == seq![crate::regs::CMD_INFLATE, dest] + crate::bytes::words_of(
        crate::bytes::padded4(payload),
    )
    &&& ends_synced(d)
}

pub proof fn lemma_prefix_refl(s: Seq<Ev>)
    ensures
        s.is_prefix_of(s),
{
    assert(s =~= s.subrange(0, s.len() as int));
}

/// A log that another extends splits into that prefix plus the appended
/// portion.
pub proof fn lemma_prefix_split(a: Seq<Ev>, b: Seq<Ev>)
    requires
        a.is_prefix_of(b),
    ensures
        b == a + delta(a, b),
{
    assert(b =~= a + delta(a, b));
}

/// Appending one event keeps the old log a prefix and pushes onto the
/// appended portion.
pub proof fn lemma_delta_push(base: Seq<Ev>, cur: Seq<Ev>, e: Ev)
    requires
        base.is_prefix_of(cur),
    ensures
        base.is_prefix_of(cur.push(e)),
        delta(base, cur.push(e)) == delta(base, cur).push(e),
{
    assert(base =~= cur.push(e).subrange(0, base.len() as int));
    assert(delta(base, cur.push(e)) =~= delta(base, cur).push(e));
}

/// Appending a ring-poll event to the log keeps every appended event a
/// ring poll.
pub proof fn lemma_ring_poll_push(base: Seq<Ev>, cur: Seq<Ev>, e: Ev)
    requires
        base.is_prefix_of(cur),
        forall|i: int|
            0 <= i < delta(base, cur).len() ==> ring_poll_ev(#[trigger] delta(base, cur)[i]),
        ring_poll_ev(e),
    ensures
        base.is_prefix_of(cur.push(e)),
        delta(base, cur.push(e)) == delta(base, cur).push(e),
        forall|i: int|
            0 <= i < delta(base, cur.push(e)).len() ==> ring_poll_ev(
                #[trigger] delta(base, cur.push(e))[i],
            ),
{
    lemma_delta_push(base, cur, e);
    assert forall|i: int| 0 <= i < delta(base, cur.push(e)).len() implies ring_poll_ev(
        #[trigger] delta(base, cur.push(e))[i],
    ) by {
        if i < delta(base, cur).len() {
            assert(ring_poll_ev(delta(base, cur)[i]));
        }
    }
}

/// Appending a liveness-poll event to the log keeps every appended event
/// a liveness poll.
pub proof fn lemma_id_poll_push(base: Seq<Ev>, cur: Seq<Ev>, e: Ev)
    requires
        base.is_prefix_of(cur),
        forall|i: int|
            0 <= i < delta(base, cur).len() ==> id_poll_ev(#[trigger] delta(base, cur)[i]),
        id_poll_ev(e),
    ensures
        base.is_prefix_of(cur.push(e)),
        delta(base, cur.push(e)) == delta(base, cur).push(e),
        forall|i: int|
            0 <= i < delta(base, cur.push(e)).len() ==> id_poll_ev(
                #[trigger] delta(base, cur.push(e))[i],
            ),
{
    lemma_delta_push(base, cur, e);
    assert forall|i: int| 0 <= i < delta(base, cur.push(e)).len() implies id_poll_ev(
        #[trigger] delta(base, cur.push(e))[i],
    ) by {
        if i < delta(base, cur).len() {
            assert(id_poll_ev(delta(base, cur)[i]));
        }
    }
}

/// The transcript of reading the ring write pointer into the local mirror:
/// one read of REG_CMD_WRITE, whose raw answer masks to the new mirror `p`.
pub open spec fn begin_delta(pre: Seq<Ev>, post: Seq<Ev>, p: u16) -> bool {
    exists|raw: u16|
        post == pre.push(Ev::Rd16 { addr: REG_CMD_WRITE, val: raw }) && p == #[trigger] mask_ptr(
            raw,
        )
}

/// An event a liveness poll may record: a read of REG_ID or a sleep.
pub open spec fn id_poll_ev(e: Ev) -> bool {
    ||| e matches Ev::Rd8 { addr, val } && addr == crate::regs::REG_ID
    ||| e matches Ev::Sleep { ms }
}

/// A transcript of a liveness poll whose last read of REG_ID answered `v`.
pub open spec fn id_poll_tail(d: Seq<Ev>, v: u8) -> bool {
    &&& d.len() >= 1
    &&& (forall|i: int| 0 <= i < d.len() ==> id_poll_ev(#[trigger] d[i]))
    &&& d[d.len() - 1] == (Ev::Rd8 { addr: crate::regs::REG_ID, val: v })
}

} // verus!
