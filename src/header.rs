use crate::bytes::{
    byte_range, le_bytes, le_value, lemma_le_bytes_of_value, lemma_le_value_of_bytes, lemma_value_below, read_u16,
    read_u32, read_u64,
};
use vstd::prelude::*;

verus! {

/// Length in bytes of the IEX-TP transport header.
pub const HEADER_LEN: usize = 40;

/// Transport protocol version this decoder understands.
pub const TP_VERSION: u8 = 1;

/// Message protocol identifier of DEEP.
pub const DEEP_PROTOCOL_ID: u16 = 0x8004;

/// The fixed 40-byte IEX-TP header that opens every packet.
#[derive(Clone, Copy, Debug, PartialEq, Eq, Structural)]
pub struct IexTpHeader {
    pub version: u8,
    pub reserved: u8,
    pub message_protocol_id: u16,
    pub channel_id: u32,
    pub session_id: u32,
    pub payload_length: u16,
    pub message_count: u16,
    pub stream_offset: u64,
    pub first_message_sequence_number: u64,
    /// Nanoseconds since the epoch.
    pub send_time: u64,
}

/// The header that the first 40 bytes of `s` describe.
pub open spec fn header_of(s: Seq<u8>) -> IexTpHeader {
    IexTpHeader {
        version: s[0],
        reserved: s[1],
        message_protocol_id: le_value(s.subrange(2, 4)) as u16,
        channel_id: le_value(s.subrange(4, 8)) as u32,
        session_id: le_value(s.subrange(8, 12)) as u32,
        payload_length: le_value(s.subrange(12, 14)) as u16,
        message_count: le_value(s.subrange(14, 16)) as u16,
        stream_offset: le_value(s.subrange(16, 24)) as u64,
        first_message_sequence_number: le_value(s.subrange(24, 32)) as u64,
        send_time: le_value(s.subrange(32, 40)) as u64,
    }
}

/// The 40 bytes that encode `h`, field after field, little-endian.
pub open spec fn header_bytes(h: IexTpHeader) -> Seq<u8> {
    seq![h.version, h.reserved] + le_bytes(h.message_protocol_id as nat, 2) + le_bytes(
        h.channel_id as nat,
        4,
    ) + le_bytes(h.session_id as nat, 4) + le_bytes(h.payload_length as nat, 2) + le_bytes(
        h.message_count as nat,
        2,
    ) + le_bytes(h.stream_offset as nat, 8) + le_bytes(h.first_message_sequence_number as nat, 8)
        + le_bytes(h.send_time as nat, 8)
}

/// Decodes the transport header at the start of `bytes`; `None` when fewer
/// than 40 bytes are given. Version and protocol are not checked here.
pub fn parse_header(bytes: &[u8]) -> (r: Option<IexTpHeader>)
    ensures
        bytes@.len() < 40 <==> r is None,
        r matches Some(h) ==> h == header_of(bytes@),
{
    if bytes.len() < HEADER_LEN {
        return None;
    }
    let h = IexTpHeader {
        version: bytes[0],
        reserved: bytes[1],
        message_protocol_id: read_u16(bytes, 2),
        channel_id: read_u32(bytes, 4),
        session_id: read_u32(bytes, 8),
        payload_length: read_u16(bytes, 12),
        message_count: read_u16(bytes, 14),
        stream_offset: read_u64(bytes, 16),
        first_message_sequence_number: read_u64(bytes, 24),
        send_time: read_u64(bytes, 32),
    };
    Some(h)
}

/// The header's fields worth a diagnostic line, each with its label, in
/// order: version, message protocol, channel, session, payload length,
/// message count, first sequence number and send time.
pub fn debug_header(iex_header: &IexTpHeader) -> (r: Vec<(&'static str, u64)>)
    ensures
        r@.len() == 8,
        r@[0].1 == iex_header.version,
        r@[1].1 == iex_header.message_protocol_id,
        r@[2].1 == iex_header.channel_id,
        r@[3].1 == iex_header.session_id,
        r@[4].1 == iex_header.payload_length,
        r@[5].1 == iex_header.message_count,
        r@[6].1 == iex_header.first_message_sequence_number,
        r@[7].1 == iex_header.send_time,
{
    let mut r: Vec<(&'static str, u64)> = Vec::new();
    r.push(("Version", iex_header.version as u64));
    r.push(("Message Protocol ID", iex_header.message_protocol_id as u64));
    r.push(("Channel ID", iex_header.channel_id as u64));
    r.push(("Session ID", iex_header.session_id as u64));
    r.push(("Payload length", iex_header.payload_length as u64));
    r.push(("Message count", iex_header.message_count as u64));
    r.push(("First msg seq num", iex_header.first_message_sequence_number));
    r.push(("Send time", iex_header.send_time));
    r
}

proof fn lemma_field_round_trip(s: Seq<u8>, lo: int, hi: int)
    requires
        0 <= lo <= hi <= s.len(),
    ensures
        le_bytes(le_value(s.subrange(lo, hi)), (hi - lo) as nat) == s.subrange(lo, hi),
{
    lemma_le_bytes_of_value(s.subrange(lo, hi));
}

/// Decoding a 40-byte header and encoding its ten fields again gives back the
/// same 40 bytes.
pub proof fn lemma_header_round_trip(s: Seq<u8>)
    requires
        s.len() == 40,
    ensures
        header_bytes(header_of(s)) == s,
{
    let h = header_of(s);
    lemma_field_round_trip(s, 2, 4);
    lemma_field_round_trip(s, 4, 8);
    lemma_field_round_trip(s, 8, 12);
    lemma_field_round_trip(s, 12, 14);
    lemma_field_round_trip(s, 14, 16);
    lemma_field_round_trip(s, 16, 24);
    lemma_field_round_trip(s, 24, 32);
    lemma_field_round_trip(s, 32, 40);
    lemma_value_fits(s.subrange(2, 4));
    lemma_value_fits(s.subrange(4, 8));
    lemma_value_fits(s.subrange(8, 12));
    lemma_value_fits(s.subrange(12, 14));
    lemma_value_fits(s.subrange(14, 16));
    lemma_value_fits(s.subrange(16, 24));
    lemma_value_fits(s.subrange(24, 32));
    lemma_value_fits(s.subrange(32, 40));
    reveal_byte_ranges();
    assert(s =~= s.subrange(0, 2) + s.subrange(2, 4) + s.subrange(4, 8) + s.subrange(8, 12)
        + s.subrange(12, 14) + s.subrange(14, 16) + s.subrange(16, 24) + s.subrange(24, 32)
        + s.subrange(32, 40));
    assert(seq![h.version, h.reserved] =~= s.subrange(0, 2));
    assert(header_bytes(h) =~= s);
}

/// Encoding a header and decoding the 40 bytes gives back the same header.
pub proof fn lemma_header_decode_encode(h: IexTpHeader)
    ensures
        header_bytes(h).len() == 40,
        header_of(header_bytes(h)) == h,
{
    reveal_byte_ranges();
    lemma_le_value_of_bytes(h.message_protocol_id as nat, 2);
    lemma_le_value_of_bytes(h.channel_id as nat, 4);
    lemma_le_value_of_bytes(h.session_id as nat, 4);
    lemma_le_value_of_bytes(h.payload_length as nat, 2);
    lemma_le_value_of_bytes(h.message_count as nat, 2);
    lemma_le_value_of_bytes(h.stream_offset as nat, 8);
    lemma_le_value_of_bytes(h.first_message_sequence_number as nat, 8);
    lemma_le_value_of_bytes(h.send_time as nat, 8);
    let b = header_bytes(h);
    assert(b.subrange(2, 4) =~= le_bytes(h.message_protocol_id as nat, 2));
    assert(b.subrange(4, 8) =~= le_bytes(h.channel_id as nat, 4));
    assert(b.subrange(8, 12) =~= le_bytes(h.session_id as nat, 4));
    assert(b.subrange(12, 14) =~= le_bytes(h.payload_length as nat, 2));
    assert(b.subrange(14, 16) =~= le_bytes(h.message_count as nat, 2));
    assert(b.subrange(16, 24) =~= le_bytes(h.stream_offset as nat, 8));
    assert(b.subrange(24, 32) =~= le_bytes(h.first_message_sequence_number as nat, 8));
    assert(b.subrange(32, 40) =~= le_bytes(h.send_time as nat, 8));
}

proof fn reveal_byte_ranges()
    ensures
        byte_range(2) == 0x10000,
        byte_range(4) == 0x100000000,
        byte_range(8) == 0x10000000000000000,
{
    reveal_with_fuel(byte_range, 9);
}

/// A value read from `n` bytes is below `256^n`.
proof fn lemma_value_fits(s: Seq<u8>)
    requires
        s.len() == 2 || s.len() == 4 || s.len() == 8,
    ensures
        le_value(s) < byte_range(s.len()),
{
    reveal_byte_ranges();
    lemma_value_below(s);
}

} // verus!
