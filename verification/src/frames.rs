//! The EVE SPI framing.
//!
//! A write is `(0x80 | addr[21:16]) :: addr[15:8] :: addr[7:0] :: payload`,
//! little-endian for multi-byte payloads.  A read sends
//! `addr[21:16] :: addr[15:8] :: addr[7:0] :: dummy` and then clocks the
//! requested bytes in.  A host command is three bytes `cmd :: 0 :: 0` with
//! no address.

use vstd::prelude::*;

verus! {

/// The 3-byte write header for a 22-bit address.
pub open spec fn wr_header(addr: u32) -> Seq<u8> {
    seq![0x80u8 | (((addr >> 16) as u8) & 0x3F), (addr >> 8) as u8, addr as u8]
}

/// The 4-byte read prefix: address header plus one dummy byte.
pub open spec fn rd_prefix(addr: u32) -> Seq<u8> {
    seq![((addr >> 16) as u8) & 0x3F, (addr >> 8) as u8, addr as u8, 0x00u8]
}

/// A 3-byte host command frame.
pub open spec fn host_cmd_frame(cmd: u8) -> Seq<u8> {
    seq![cmd, 0x00u8, 0x00u8]
}

/// The frame of an 8-bit register write.
pub open spec fn wr8_frame(addr: u32, value: u8) -> Seq<u8> {
    wr_header(addr).push(value)
}

/// The frame of a 16-bit little-endian register write.
pub open spec fn wr16_frame(addr: u32, value: u16) -> Seq<u8> {
    wr_header(addr) + seq![value as u8, (value >> 8) as u8]
}

/// The frame of a 32-bit little-endian register write.
pub open spec fn wr32_frame(addr: u32, value: u32) -> Seq<u8> {
    wr_header(addr) + seq![value as u8, (value >> 8) as u8, (value >> 16) as u8, (value
        >> 24) as u8]
}

/// The frame of a bulk write: header followed by the payload unchanged.
pub open spec fn bulk_frame(addr: u32, data: Seq<u8>) -> Seq<u8> {
    wr_header(addr) + data
}

fn push_wr_header(buf: &mut Vec<u8>, addr: u32)
    ensures
        final(buf)@ == old(buf)@ + wr_header(addr),
{
    buf.push(0x80u8 | (((addr >> 16) as u8) & 0x3F));
    buf.push((addr >> 8) as u8);
    buf.push(addr as u8);
    proof {
        assert(buf@ =~= old(buf)@ + wr_header(addr));
    }
}

/// Builds the frame of an 8-bit write.
pub fn frame_wr8(addr: u32, value: u8) -> (r: Vec<u8>)
    ensures
        r@ == wr8_frame(addr, value),
{
    let mut r: Vec<u8> = Vec::new();
    push_wr_header(&mut r, addr);
    r.push(value);
    proof {
        assert(r@ =~= wr8_frame(addr, value));
    }
    r
}

/// Builds the frame of a 16-bit little-endian write.
pub fn frame_wr16(addr: u32, value: u16) -> (r: Vec<u8>)
    ensures
        r@ == wr16_frame(addr, value),
{
    let mut r: Vec<u8> = Vec::new();
    push_wr_header(&mut r, addr);
    r.push(value as u8);
    r.push((value >> 8) as u8);
    proof {
        assert(r@ =~= wr16_frame(addr, value));
    }
    r
}

/// Builds the frame of a 32-bit little-endian write.
pub fn frame_wr32(addr: u32, value: u32) -> (r: Vec<u8>)
    ensures
        r@ == wr32_frame(addr, value),
{
    let mut r: Vec<u8> = Vec::new();
    push_wr_header(&mut r, addr);
    r.push(value as u8);
    r.push((value >> 8) as u8);
    r.push((value >> 16) as u8);
    r.push((value >> 24) as u8);
    proof {
        assert(r@ =~= wr32_frame(addr, value));
    }
    r
}

/// Builds the frame of a bulk write.
pub fn frame_bulk(addr: u32, data: &[u8]) -> (r: Vec<u8>)
    ensures
        r@ == bulk_frame(addr, data@),
{
    let mut r: Vec<u8> = Vec::new();
    push_wr_header(&mut r, addr);
    r.extend_from_slice(data);
    proof {
        assert(r@ =~= bulk_frame(addr, data@));
    }
    r
}

/// Builds the 4-byte read prefix (header plus dummy byte).
pub fn frame_rd_prefix(addr: u32) -> (r: Vec<u8>)
    ensures
        r@ == rd_prefix(addr),
{
    let mut r: Vec<u8> = Vec::new();
    r.push(((addr >> 16) as u8) & 0x3F);
    r.push((addr >> 8) as u8);
    r.push(addr as u8);
    r.push(0x00u8);
    proof {
        assert(r@ =~= rd_prefix(addr));
    }
    r
}

/// Builds a 3-byte host command frame.
pub fn frame_host_cmd(cmd: u8) -> (r: Vec<u8>)
    ensures
        r@ == host_cmd_frame(cmd),
{
    let mut r: Vec<u8> = Vec::new();
    r.push(cmd);
    r.push(0x00u8);
    r.push(0x00u8);
    proof {
        assert(r@ =~= host_cmd_frame(cmd));
    }
    r
}

} // verus!
