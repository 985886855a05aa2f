//! Wire-level frame construction.
//!
//! A frame is `[STX][SEQ_ID][LEN][DATA ...][CRC_L][CRC_H]`: a start
//! marker, a sequence-id byte (sequence flag in bit 7, device address in
//! bits 0..=6), the data length, the data bytes, and a CRC-16 trailer
//! computed over everything between the start marker and the trailer.
use vstd::bytes::spec_u16_to_le_bytes;
use vstd::bytes::u16_to_le_bytes;
use vstd::prelude::*;
use vstd::slice::slice_subrange;

use crate::codec::crc16;
use crate::codec::crc16_of;

verus! {

/// Start-of-frame marker.
pub const START_MARKER: u8 = 0x7f;

/// Bytes before the data field: start marker, sequence id, length.
pub const HEADER_LEN: usize = 3;

/// Bytes of the CRC-16 trailer.
pub const CHECKSUM_LEN: usize = 2;

/// Bytes of a frame that are not data.
pub const METADATA_LEN: usize = 5;

/// Largest data field a frame can carry (the length field is one byte).
pub const MAX_DATA_LEN: usize = 255;

/// Largest whole frame: metadata plus the largest data field.
pub const MAX_FRAME_LEN: usize = 260;

/// The sequence-id byte: the sequence flag in bit 7, the device address
/// in the low seven bits.
pub open spec fn spec_seq_id_byte(flag: bool, id: u8) -> u8 {
    if flag {
        (id & 0x7f) | 0x80
    } else {
        id & 0x7f
    }
}

/// Builds the sequence-id byte from a sequence flag and a device address.
pub fn seq_id_byte(flag: bool, id: u8) -> (r: u8)
    ensures
        r == spec_seq_id_byte(flag, id),
{
    if flag {
        (id & 0x7f) | 0x80
    } else {
        id & 0x7f
    }
}

/// Everything of a frame that the CRC-16 trailer covers: the sequence-id
/// byte, the length byte, and the data.
pub open spec fn frame_body(seq: u8, data: Seq<u8>) -> Seq<u8> {
    seq![seq, data.len() as u8] + data
}

/// A whole frame carrying `data` under sequence-id byte `seq`.
pub open spec fn framed(seq: u8, data: Seq<u8>) -> Seq<u8> {
    seq![START_MARKER] + frame_body(seq, data) + spec_u16_to_le_bytes(
        crc16_of(frame_body(seq, data)),
    )
}

/// An existing frame re-issued under a new sequence-id byte: the data and
/// length bytes are kept, the sequence-id byte is replaced, and the CRC-16
/// trailer is recomputed.
pub open spec fn reframe_body(wire: Seq<u8>, seq: u8) -> Seq<u8> {
    seq![seq] + wire.subrange(2, wire.len() - 2)
}

/// The whole re-issued frame.
pub open spec fn reframed(wire: Seq<u8>, seq: u8) -> Seq<u8> {
    seq![START_MARKER] + reframe_body(wire, seq) + spec_u16_to_le_bytes(
        crc16_of(reframe_body(wire, seq)),
    )
}

/// Serializes a frame around a data payload.
pub fn frame_message(seq: u8, data: &Vec<u8>) -> (r: Vec<u8>)
    requires
        data@.len() <= MAX_DATA_LEN,
    ensures
        r@ == framed(seq, data@),
        r@.len() == data@.len() + METADATA_LEN,
        r@[0] == START_MARKER,
        r@[1] == seq,
        r@[2] == data@.len() as u8,
{
    let mut body: Vec<u8> = Vec::new();
    body.push(seq);
    body.push(data.len() as u8);
    body.extend_from_slice(data.as_slice());
    let crc: u16 = crc16(body.as_slice());
    let crc_bytes: Vec<u8> = u16_to_le_bytes(crc);
    let mut out: Vec<u8> = Vec::new();
    out.push(START_MARKER);
    out.extend_from_slice(body.as_slice());
    out.extend_from_slice(crc_bytes.as_slice());
    proof {
        assert(body@ =~= frame_body(seq, data@));
        assert(out@ =~= framed(seq, data@));
    }
    out
}

/// Re-issues an existing frame under a new sequence-id byte, recomputing
/// the CRC-16 trailer over the kept length and data bytes.
pub fn reframe_message(wire: &Vec<u8>, seq: u8) -> (r: Vec<u8>)
    requires
        METADATA_LEN <= wire@.len(),
        wire@.len() <= MAX_FRAME_LEN,
    ensures
        r@ == reframed(wire@, seq),
        r@.len() == wire@.len(),
        r@[0] == START_MARKER,
        r@[1] == seq,
        r@[2] == wire@[2],
{
    let n: usize = wire.len();
    let mut body: Vec<u8> = Vec::new();
    body.push(seq);
    let kept: &[u8] = slice_subrange(wire.as_slice(), 2, n - 2);
    body.extend_from_slice(kept);
    let crc: u16 = crc16(body.as_slice());
    let crc_bytes: Vec<u8> = u16_to_le_bytes(crc);
    let mut out: Vec<u8> = Vec::new();
    out.push(START_MARKER);
    out.extend_from_slice(body.as_slice());
    out.extend_from_slice(crc_bytes.as_slice());
    proof {
        assert(body@ =~= reframe_body(wire@, seq));
        assert(out@ =~= reframed(wire@, seq));
    }
    out
}

/// Re-issuing a freshly built frame under a new sequence-id byte yields
/// exactly the frame built under that byte: retransmission changes the
/// sequence bit and the checksum, never the payload.
pub proof fn lemma_reframe_of_framed(s1: u8, s2: u8, data: Seq<u8>)
    requires
        data.len() <= MAX_DATA_LEN,
    ensures
        reframed(framed(s1, data), s2) == framed(s2, data),
{
    vstd::bytes::lemma_auto_spec_u16_to_from_le_bytes();
    assert(reframe_body(framed(s1, data), s2) =~= frame_body(s2, data));
    assert(reframed(framed(s1, data), s2) =~= framed(s2, data));
}

} // verus!
