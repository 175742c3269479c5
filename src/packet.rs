use crate::header::{header_of, parse_header, IexTpHeader, DEEP_PROTOCOL_ID, HEADER_LEN, TP_VERSION};
use crate::message::IexDeepMessage;
use crate::segment::{decoded_body, parse_body};
use vstd::prelude::*;

verus! {

/// Why a packet cannot be decoded. Each of these ends a run.
#[derive(Clone, Copy, Debug, PartialEq, Eq, Structural)]
pub enum PacketError {
    /// The frame holds no UDP or TCP payload.
    NoTransportPayload,
    /// The payload is shorter than the 40-byte transport header.
    HeaderTooShort,
    /// The transport header names another protocol version.
    UnsupportedVersion(u8),
    /// The transport header names another message protocol.
    UnsupportedProtocol(u16),
}

/// The header of a payload, or why it cannot be used.
pub open spec fn checked_header(payload: Seq<u8>) -> Result<IexTpHeader, PacketError> {
    if payload.len() < 40 {
        Err(PacketError::HeaderTooShort)
    } else {
        let h = header_of(payload);
        if h.version != TP_VERSION {
            Err(PacketError::UnsupportedVersion(h.version))
        } else if h.message_protocol_id != DEEP_PROTOCOL_ID {
            Err(PacketError::UnsupportedProtocol(h.message_protocol_id))
        } else {
            Ok(h)
        }
    }
}

/// Whether `r` is the outcome of decoding `payload` as packet `packet`.
pub open spec fn packet_decoded(
    payload: Seq<u8>,
    packet: u64,
    r: Result<(IexTpHeader, Vec<IexDeepMessage>), PacketError>,
) -> bool {
    match (checked_header(payload), r) {
        (Err(e), Err(f)) => e == f,
        (Ok(h), Ok((g, msgs))) => h == g && decoded_body(
            payload.subrange(40, payload.len() as int),
            packet,
            h.first_message_sequence_number,
            msgs@,
        ),
        _ => false,
    }
}

/// Decodes one packet's IEX-TP payload: its header, checked for version and
/// protocol, and the messages after it.
pub fn parse_packet(payload: &[u8], packet_num: u64) -> (r: Result<
    (IexTpHeader, Vec<IexDeepMessage>),
    PacketError,
>)
    ensures
        packet_decoded(payload@, packet_num, r),
{
    let header = match parse_header(payload) {
        Some(h) => h,
        None => return Err(PacketError::HeaderTooShort),
    };
    if header.version != TP_VERSION {
        return Err(PacketError::UnsupportedVersion(header.version));
    }
    if header.message_protocol_id != DEEP_PROTOCOL_ID {
        return Err(PacketError::UnsupportedProtocol(header.message_protocol_id));
    }
    let body = &payload[HEADER_LEN..payload.len()];
    assert(body@ =~= payload@.subrange(40, payload@.len() as int));
    let messages = parse_body(body, packet_num, header.first_message_sequence_number);
    Ok((header, messages))
}

/// What follows the Ethernet, IP and UDP or TCP headers of a frame.
pub uninterp spec fn transport_payload_of(frame: Seq<u8>) -> Option<Seq<u8>>;

/// Relies on etherparse's `SlicedPacket::from_ethernet` to strip the link,
/// network and transport headers, and on the `payload` of its UDP or TCP
/// slice.
#[verifier::external_body]
fn transport_payload(frame: &[u8]) -> (r: Option<Vec<u8>>)
    ensures
        r matches Some(p) ==> transport_payload_of(frame@) == Some(p@),
        r is None ==> transport_payload_of(frame@) is None,
{
    match etherparse::SlicedPacket::from_ethernet(frame) {
        Ok(sliced) => match sliced.transport {
            Some(etherparse::TransportSlice::Udp(udp)) => Some(udp.payload().to_vec()),
            Some(etherparse::TransportSlice::Tcp(tcp)) => Some(tcp.payload().to_vec()),
            _ => None,
        },
        Err(_) => None,
    }
}

/// Decodes one captured Ethernet frame: its transport payload as an IEX-TP
/// packet.
pub fn parse_frame(frame: &[u8], packet_num: u64) -> (r: Result<
    (IexTpHeader, Vec<IexDeepMessage>),
    PacketError,
>)
    ensures
        match transport_payload_of(frame@) {
            None => r == Err::<(IexTpHeader, Vec<IexDeepMessage>), PacketError>(
                PacketError::NoTransportPayload,
            ),
            Some(p) => packet_decoded(p, packet_num, r),
        },
{
    match transport_payload(frame) {
        Some(payload) => parse_packet(payload.as_slice(), packet_num),
        None => Err(PacketError::NoTransportPayload),
    }
}

} // verus!
