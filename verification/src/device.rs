//! A memory-level model of the device: what a transcript of operations
//! does to the chip's byte-addressed memory and to the power-down line.
//! The laws about idempotence and shutdown ordering are stated over this
//! model.

use vstd::prelude::*;
use crate::events::Ev;

verus! {

/// The modelled device state: its byte-addressed memory and whether the
/// power-down line is high (chip powered).
pub struct DeviceState {
    pub mem: Map<int, u8>,
    pub pd_high: bool,
}

/// Memory after writing `data` at `addr`.
pub open spec fn write_bytes(m: Map<int, u8>, addr: int, data: Seq<u8>) -> Map<int, u8> {
    m.union_prefer_right(
        Map::new(|a: int| addr <= a < addr + data.len(), |a: int| data[a - addr]),
    )
}

/// The little-endian bytes of a 16-bit value.
pub open spec fn le_bytes16(v: u16) -> Seq<u8> {
    seq![v as u8, (v >> 8) as u8]
}

/// The little-endian bytes of a 32-bit value.
pub open spec fn le_bytes32(v: u32) -> Seq<u8> {
    seq![v as u8, (v >> 8) as u8, (v >> 16) as u8, (v >> 24) as u8]
}

/// The device state after one recorded operation.  Reads, host commands
/// and sleeps leave the modelled state unchanged.
pub open spec fn apply_ev(s: DeviceState, e: Ev) -> DeviceState {
    match e {
        Ev::Wr8 { addr, val } => DeviceState {
            mem: write_bytes(s.mem, addr as int, seq![val]),
            ..s
        },
        Ev::Wr16 { addr, val } => DeviceState {
            mem: write_bytes(s.mem, addr as int, le_bytes16(val)),
            ..s
        },
        Ev::Wr32 { addr, val } => DeviceState {
            mem: write_bytes(s.mem, addr as int, le_bytes32(val)),
            ..s
        },
        Ev::WrBulk { addr, data } => DeviceState {
            mem: write_bytes(s.mem, addr as int, data),
            ..s
        },
        Ev::PdHigh => DeviceState { pd_high: true, ..s },
        Ev::PdLow => DeviceState { pd_high: false, ..s },
        _ => s,
    }
}

/// The device state after a whole transcript.
pub open spec fn apply_evs(s: DeviceState, d: Seq<Ev>) -> DeviceState
    decreases d.len(),
{
    if d.len() == 0 {
        s
    } else {
        apply_ev(apply_evs(s, d.drop_last()), d.last())
    }
}

pub proof fn lemma_apply_evs_push(s: DeviceState, d: Seq<Ev>, e: Ev)
    ensures
        apply_evs(s, d.push(e)) == apply_ev(apply_evs(s, d), e),
{
    assert(d.push(e).drop_last() =~= d);
    assert(d.push(e).last() == e);
}

/// Unfolds the application of a four-event transcript.
pub proof fn lemma_apply_evs4(s: DeviceState, q: Seq<Ev>)
    requires
        q.len() == 4,
    ensures
        apply_evs(s, q) == apply_ev(apply_ev(apply_ev(apply_ev(s, q[0]), q[1]), q[2]), q[3]),
{
    let p0 = Seq::<Ev>::empty();
    let p1 = p0.push(q[0]);
    let p2 = p1.push(q[1]);
    let p3 = p2.push(q[2]);
    assert(q =~= p3.push(q[3]));
    lemma_apply_evs_push(s, p3, q[3]);
    lemma_apply_evs_push(s, p2, q[2]);
    lemma_apply_evs_push(s, p1, q[1]);
    lemma_apply_evs_push(s, p0, q[0]);
}

pub proof fn lemma_apply_evs_concat(s: DeviceState, a: Seq<Ev>, b: Seq<Ev>)
    ensures
        apply_evs(s, a + b) == apply_evs(apply_evs(s, a), b),
    decreases b.len(),
{
    if b.len() == 0 {
        assert(a + b =~= a);
    } else {
        lemma_apply_evs_concat(s, a, b.drop_last());
        assert((a + b).drop_last() =~= a + b.drop_last());
        assert((a + b).last() == b.last());
    }
}

} // verus!
