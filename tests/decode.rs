use iex_pcap_parser::bytes::{read_u16, read_u32, read_u64};
use iex_pcap_parser::capture::{capture_bytes, CaptureFormat, LoadPcapError};
use iex_pcap_parser::codes::{
    AuctionType, Detail, ImbalanceSide, LimitUpLimitDownTier, OperationalHaltStatus,
    PriceLevelUpdateEventFlags, PriceType, SecurityEvent, ShortSalePriceTestStatus, SystemEvent,
    TradingStatus,
};
use iex_pcap_parser::header::{debug_header, parse_header};
use iex_pcap_parser::message::{parse_message, IexDeepMessage, IexDeepMessageImpl};
use iex_pcap_parser::packet::{parse_frame, parse_packet, PacketError};
use iex_pcap_parser::segment::parse_body;
use iex_pcap_parser::tick::{get_price_multiplier_for_timestamp, symbol_key, Tick, TickStore};
use std::io::Write;

const SYMBOL: &[u8; 8] = b"ZIEXT   ";
const TS: u64 = 1_562_160_000_123_456_789;

fn common(t: u8, sub: u8, len: usize) -> Vec<u8> {
    let mut r = vec![0u8; len];
    r[0] = t;
    r[1] = sub;
    r[2..10].copy_from_slice(&TS.to_le_bytes());
    if len >= 18 {
        r[10..18].copy_from_slice(SYMBOL);
    }
    r
}

fn price_level(sub: u8, size: u32, price: u64) -> Vec<u8> {
    let mut r = common(b'8', sub, 30);
    r[18..22].copy_from_slice(&size.to_le_bytes());
    r[22..30].copy_from_slice(&price.to_le_bytes());
    r
}

fn trade(t: u8, len: usize) -> Vec<u8> {
    let mut r = common(t, 0x40, len);
    r[18..22].copy_from_slice(&100u32.to_le_bytes());
    r[22..30].copy_from_slice(&995_000u64.to_le_bytes());
    if len >= 38 {
        r[30..38].copy_from_slice(&42u64.to_le_bytes());
    }
    r
}

fn framed(records: &[Vec<u8>]) -> Vec<u8> {
    let mut out = Vec::new();
    for r in records {
        out.extend_from_slice(&(r.len() as u16).to_le_bytes());
        out.extend_from_slice(r);
    }
    out
}

fn header(first_seq: u64, version: u8, protocol: u16) -> Vec<u8> {
    let mut h = Vec::new();
    h.push(version);
    h.push(0);
    h.extend_from_slice(&protocol.to_le_bytes());
    h.extend_from_slice(&0x0102_0304u32.to_le_bytes());
    h.extend_from_slice(&0x4403_0201u32.to_le_bytes());
    h.extend_from_slice(&72u16.to_le_bytes());
    h.extend_from_slice(&1u16.to_le_bytes());
    h.extend_from_slice(&123_456u64.to_le_bytes());
    h.extend_from_slice(&first_seq.to_le_bytes());
    h.extend_from_slice(&TS.to_le_bytes());
    h
}

fn decode(r: &[u8]) -> Option<IexDeepMessage> {
    parse_message(r, 3, 77)
}

#[test]
fn little_endian_reads() {
    let b = [0x01, 0x02, 0x03, 0x04, 0x05, 0x06, 0x07, 0x08, 0x09];
    assert_eq!(read_u16(&b, 0), 0x0201);
    assert_eq!(read_u32(&b, 1), 0x0504_0302);
    assert_eq!(read_u64(&b, 1), 0x0908_0706_0504_0302);
}

#[test]
fn header_fields_and_reencoding() {
    let bytes = header(100, 1, 0x8004);
    let h = parse_header(&bytes).unwrap();
    assert_eq!(h.version, 1);
    assert_eq!(h.reserved, 0);
    assert_eq!(h.message_protocol_id, 0x8004);
    assert_eq!(h.channel_id, 0x0102_0304);
    assert_eq!(h.session_id, 0x4403_0201);
    assert_eq!(h.payload_length, 72);
    assert_eq!(h.message_count, 1);
    assert_eq!(h.stream_offset, 123_456);
    assert_eq!(h.first_message_sequence_number, 100);
    assert_eq!(h.send_time, TS);
    let mut again = vec![h.version, h.reserved];
    again.extend_from_slice(&h.message_protocol_id.to_le_bytes());
    again.extend_from_slice(&h.channel_id.to_le_bytes());
    again.extend_from_slice(&h.session_id.to_le_bytes());
    again.extend_from_slice(&h.payload_length.to_le_bytes());
    again.extend_from_slice(&h.message_count.to_le_bytes());
    again.extend_from_slice(&h.stream_offset.to_le_bytes());
    again.extend_from_slice(&h.first_message_sequence_number.to_le_bytes());
    again.extend_from_slice(&h.send_time.to_le_bytes());
    assert_eq!(again, bytes);
}

#[test]
fn header_needs_forty_bytes() {
    let bytes = header(1, 1, 0x8004);
    assert!(parse_header(&bytes[..39]).is_none());
    assert!(parse_header(&bytes[..40]).is_some());
}

#[test]
fn system_event_valid_and_invalid() {
    let m = decode(&common(b'S', b'E', 10)).unwrap();
    assert_eq!(m.message_type, b'S');
    assert_eq!(m.timestamp, TS);
    assert_eq!(m.packet_number, 3);
    assert_eq!(m.message_sequence_number, 77);
    assert!(matches!(m.body, IexDeepMessageImpl::SystemEvent(ref b) if b.system_event == SystemEvent::EndOfSystemHours));
    assert!(decode(&common(b'S', b'Z', 10)).is_none());
}

#[test]
fn security_directory_valid_and_invalid() {
    let mut r = common(b'D', 0x80, 31);
    r[18..22].copy_from_slice(&100u32.to_le_bytes());
    r[22..30].copy_from_slice(&1_234_500u64.to_le_bytes());
    r[30] = 2;
    match decode(&r).unwrap().body {
        IexDeepMessageImpl::SecurityDirectory(b) => {
            assert_eq!(&b.symbol, SYMBOL);
            assert_eq!(b.flags, 0x80);
            assert_eq!(b.round_lot_size, 100);
            assert_eq!(b.adjusted_poc_price, 1_234_500);
            assert_eq!(b.luld_tier, LimitUpLimitDownTier::Tier2NmsStock);
        }
        _ => panic!("wrong variant"),
    }
    r[30] = 3;
    assert!(decode(&r).is_none());
}

#[test]
fn trading_status_valid_and_invalid() {
    let mut r = common(b'H', b'H', 22);
    r[18..22].copy_from_slice(b"T1  ");
    match decode(&r).unwrap().body {
        IexDeepMessageImpl::TradingStatus(b) => {
            assert_eq!(&b.symbol, SYMBOL);
            assert_eq!(&b.reason, b"T1  ");
            assert_eq!(b.trading_status, TradingStatus::Halted);
        }
        _ => panic!("wrong variant"),
    }
    r[1] = b'X';
    assert!(decode(&r).is_none());
}

#[test]
fn operational_halt_valid_and_invalid() {
    match decode(&common(b'O', b'N', 18)).unwrap().body {
        IexDeepMessageImpl::OperationalHaltStatus(b) => {
            assert_eq!(&b.symbol, SYMBOL);
            assert_eq!(b.operational_halt_status, OperationalHaltStatus::NotHalted);
        }
        _ => panic!("wrong variant"),
    }
    assert!(decode(&common(b'O', b'H', 18)).is_none());
}

#[test]
fn short_sale_price_test_valid_and_invalid() {
    let mut r = common(b'P', 1, 19);
    r[18] = b'A';
    match decode(&r).unwrap().body {
        IexDeepMessageImpl::ShortSalePriceTestStatus(b) => {
            assert_eq!(&b.symbol, SYMBOL);
            assert_eq!(b.short_sale_price_test_status, ShortSalePriceTestStatus::InEffect);
            assert_eq!(b.detail, Detail::Activated);
        }
        _ => panic!("wrong variant"),
    }
    r[18] = b'Z';
    assert!(decode(&r).is_none());
    r[18] = b' ';
    assert!(decode(&r).is_some());
    r[1] = 2;
    assert!(decode(&r).is_none());
}

#[test]
fn security_event_valid_and_invalid() {
    match decode(&common(b'E', b'C', 18)).unwrap().body {
        IexDeepMessageImpl::SecurityEvent(b) => {
            assert_eq!(b.security_event, SecurityEvent::ClosingProcessComplete);
        }
        _ => panic!("wrong variant"),
    }
    assert!(decode(&common(b'E', b'X', 18)).is_none());
}

#[test]
fn price_level_update_valid_and_invalid() {
    for t in [b'8', b'5'] {
        let mut r = price_level(0, 500, 123_450_000);
        r[0] = t;
        let m = decode(&r).unwrap();
        assert_eq!(m.message_type, t);
        match m.body {
            IexDeepMessageImpl::PriceLevelUpdate(b) => {
                assert_eq!(&b.symbol, SYMBOL);
                assert_eq!(b.size, 500);
                assert_eq!(b.price, 123_450_000);
                assert_eq!(b.event_flags, PriceLevelUpdateEventFlags::OrderBookIsProcessingAnEvent);
            }
            _ => panic!("wrong variant"),
        }
    }
    assert!(decode(&price_level(2, 500, 1)).is_none());
}

#[test]
fn official_price_valid_and_invalid() {
    let mut r = common(b'X', b'Q', 26);
    r[18..26].copy_from_slice(&1_000_100u64.to_le_bytes());
    match decode(&r).unwrap().body {
        IexDeepMessageImpl::OfficialPrice(b) => {
            assert_eq!(b.price_type, PriceType::OfficialOpeningPrice);
            assert_eq!(b.official_price, 1_000_100);
        }
        _ => panic!("wrong variant"),
    }
    r[1] = b'C';
    assert!(decode(&r).is_none());
}

#[test]
fn trade_report_and_break_need_thirty_eight_bytes() {
    for t in [b'T', b'B'] {
        assert!(decode(&trade(t, 37)).is_none());
        let m = decode(&trade(t, 38)).unwrap();
        assert_eq!(m.message_subtype, 0x40);
        match (t, m.body) {
            (b'T', IexDeepMessageImpl::TradeReport(b)) => {
                assert_eq!(&b.symbol, SYMBOL);
                assert_eq!((b.size, b.price, b.trade_id, b.sale_condition_flags), (100, 995_000, 42, 0x40));
            }
            (b'B', IexDeepMessageImpl::TradeBreak(b)) => {
                assert_eq!((b.size, b.price, b.trade_id, b.sale_condition_flags), (100, 995_000, 42, 0x40));
            }
            _ => panic!("wrong variant"),
        }
    }
}

#[test]
fn auction_information_and_unknown_types_are_rejected() {
    assert!(decode(&common(b'A', b'O', 80)).is_none());
    assert!(decode(&common(b'Q', b'O', 40)).is_none());
    assert!(decode(&[b'S', b'O', 0, 0]).is_none());
    assert!(decode(&common(b'8', 0, 29)).is_none());
}

#[test]
fn code_tables() {
    assert_eq!(SystemEvent::from_u8(b'O'), Some(SystemEvent::StartOfMessages));
    assert_eq!(SystemEvent::from_u8(b'C'), Some(SystemEvent::EndOfMessages));
    assert_eq!(LimitUpLimitDownTier::from_u8(0), Some(LimitUpLimitDownTier::NotApplicable));
    assert_eq!(TradingStatus::from_u8(b'P'), Some(TradingStatus::PausedAndOrderAcceptancePeriod));
    assert_eq!(Detail::from_u8(b'N'), Some(Detail::NotAvailable));
    assert_eq!(PriceType::from_u8(b'M'), Some(PriceType::OfficialClosingPrice));
    assert_eq!(AuctionType::from_u8(b'V'), Some(AuctionType::Volatility));
    assert_eq!(AuctionType::from_u8(b'X'), None);
    assert_eq!(ImbalanceSide::from_u8(b'B'), Some(ImbalanceSide::BuySideImbalance));
    assert_eq!(ImbalanceSide::from_u8(b'b'), None);
}

#[test]
fn zero_length_record_ends_the_region() {
    let good = price_level(1, 1, 2);
    let mut region = framed(&[good.clone(), good.clone()]);
    region.extend_from_slice(&[0, 0]);
    region.extend_from_slice(&framed(&[good.clone(), good.clone(), good]));
    let msgs = parse_body(&region, 0, 10);
    assert_eq!(msgs.len(), 2);
    assert_eq!(msgs[1].message_sequence_number, 11);
}

#[test]
fn failed_records_still_take_a_sequence_number() {
    let region = framed(&[
        price_level(1, 1, 2),
        common(b'S', b'Z', 10),
        trade(b'T', 37),
        price_level(0, 3, 4),
    ]);
    let msgs = parse_body(&region, 5, 200);
    let seqs: Vec<u64> = msgs.iter().map(|m| m.message_sequence_number).collect();
    assert_eq!(seqs, vec![200, 203]);
    assert!(msgs.iter().all(|m| m.packet_number == 5));
}

#[test]
fn truncated_last_record_is_cut_at_region_end() {
    let mut region = framed(&[price_level(1, 1, 2)]);
    region.extend_from_slice(&40u16.to_le_bytes());
    region.extend_from_slice(&price_level(1, 9, 9));
    let msgs = parse_body(&region, 0, 0);
    assert_eq!(msgs.len(), 2);
    let lone_byte = [1u8, 0, 7];
    assert_eq!(parse_body(&lone_byte, 0, 0).len(), 0);
    assert_eq!(parse_body(&[], 0, 0).len(), 0);
}

#[test]
fn sequence_numbers_wrap_at_u64_max() {
    let region = framed(&[price_level(1, 1, 2), price_level(1, 1, 2)]);
    let msgs = parse_body(&region, 0, u64::MAX);
    assert_eq!(msgs[0].message_sequence_number, u64::MAX);
    assert_eq!(msgs[1].message_sequence_number, 0);
}

#[test]
fn end_to_end_single_price_level_update() {
    let mut payload = header(100, 1, 0x8004);
    payload.extend_from_slice(&framed(&[price_level(1, 500, 123_450_000)]));
    let (h, msgs) = parse_packet(&payload, 0).unwrap();
    assert_eq!(h.first_message_sequence_number, 100);
    assert_eq!(msgs.len(), 1);
    let tick = msgs[0].to_serialized_tick().unwrap();
    assert_eq!(
        tick,
        Tick {
            message_type: b'8',
            message_subtype: 1,
            timestamp: TS,
            size: 500,
            price: 123_450_000,
            price_multiplier: 10000,
            packet_number: 0,
            message_sequence_number: 100,
        }
    );
    let mut store = TickStore::new();
    store.add_messages(&msgs);
    assert_eq!(store.by_symbol.len(), 1);
    assert_eq!(store.by_symbol.get(&symbol_key(SYMBOL)).unwrap(), &vec![tick]);
    assert_eq!(store.type_counts.get(&b'8'), Some(&1));
}

#[test]
fn packet_errors() {
    let ok = header(1, 1, 0x8004);
    assert_eq!(parse_packet(&ok[..39], 0).err(), Some(PacketError::HeaderTooShort));
    assert_eq!(parse_packet(&header(1, 2, 0x8004), 0).err(), Some(PacketError::UnsupportedVersion(2)));
    assert_eq!(parse_packet(&header(1, 1, 0x8003), 0).err(), Some(PacketError::UnsupportedProtocol(0x8003)));
    let (_, msgs) = parse_packet(&ok, 0).unwrap();
    assert!(msgs.is_empty());
}

#[test]
fn frame_payload_is_decoded() {
    let mut payload = header(7, 1, 0x8004);
    payload.extend_from_slice(&framed(&[trade(b'T', 38)]));
    let builder = etherparse::PacketBuilder::ethernet2([1, 2, 3, 4, 5, 6], [7, 8, 9, 10, 11, 12])
        .ipv4([10, 0, 0, 1], [233, 215, 21, 4], 20)
        .udp(10378, 10378);
    let mut frame = Vec::new();
    builder.write(&mut frame, &payload).unwrap();
    let (h, msgs) = parse_frame(&frame, 4).unwrap();
    assert_eq!(h.first_message_sequence_number, 7);
    assert_eq!(msgs.len(), 1);
    assert_eq!(msgs[0].packet_number, 4);
    assert_eq!(msgs[0].symbol(), Some(*SYMBOL));
    assert_eq!(parse_frame(&[0u8; 10], 0).err(), Some(PacketError::NoTransportPayload));
}

#[test]
fn ticks_only_from_trades_and_price_levels() {
    let region = framed(&[common(b'S', b'O', 10), trade(b'B', 38), trade(b'T', 38), price_level(1, 5, 6)]);
    let msgs = parse_body(&region, 0, 0);
    assert_eq!(msgs.len(), 4);
    assert!(msgs[0].to_serialized_tick().is_none());
    assert!(msgs[1].to_serialized_tick().is_none());
    assert_eq!(msgs[1].symbol(), None);
    assert_eq!(msgs[2].to_serialized_tick().unwrap().price, 995_000);
    let mut store = TickStore::new();
    store.add_messages(&msgs);
    let ticks = store.by_symbol.get(&symbol_key(SYMBOL)).unwrap();
    assert_eq!(ticks.len(), 2);
    assert_eq!(ticks[0].message_sequence_number, 2);
    assert_eq!(ticks[1].message_sequence_number, 3);
    assert_eq!(store.type_counts.get(&b'S'), Some(&1));
}

#[test]
fn symbol_key_reads_symbol_bytes() {
    assert_eq!(symbol_key(SYMBOL), u64::from_le_bytes(*SYMBOL));
    assert_ne!(symbol_key(b"AAPL    "), symbol_key(b"AAPM    "));
    assert_eq!(get_price_multiplier_for_timestamp(0), 10000);
}

#[test]
fn gzip_capture_is_decompressed() {
    let raw = vec![0xd4u8, 0xc3, 0xb2, 0xa1, 1, 2, 3, 4, 5];
    let mut enc = flate2::write::GzEncoder::new(Vec::new(), flate2::Compression::default());
    enc.write_all(&raw).unwrap();
    let gz = enc.finish().unwrap();
    assert_eq!(capture_bytes(CaptureFormat::Gzip, gz), Ok(raw.clone()));
    assert_eq!(capture_bytes(CaptureFormat::Pcap, raw.clone()), Ok(raw.clone()));
    assert_eq!(capture_bytes(CaptureFormat::Gzip, raw), Err(LoadPcapError::DeflateError));
}

#[test]
fn debug_header_lists_fields() {
    let h = parse_header(&header(100, 1, 0x8004)).unwrap();
    let lines = debug_header(&h);
    assert_eq!(lines.len(), 8);
    assert_eq!(lines[0], ("Version", 1));
    assert_eq!(lines[1], ("Message Protocol ID", 0x8004));
    assert_eq!(lines[4].1, 72);
    assert_eq!(lines[6], ("First msg seq num", 100));
    assert_eq!(lines[7], ("Send time", TS));
}

#[test]
fn header_round_trip_on_arbitrary_bytes() {
    let bytes: Vec<u8> = (0u8..40).map(|i| i.wrapping_mul(37).wrapping_add(5)).collect();
    let h = parse_header(&bytes).unwrap();
    let mut again = vec![h.version, h.reserved];
    again.extend_from_slice(&h.message_protocol_id.to_le_bytes());
    again.extend_from_slice(&h.channel_id.to_le_bytes());
    again.extend_from_slice(&h.session_id.to_le_bytes());
    again.extend_from_slice(&h.payload_length.to_le_bytes());
    again.extend_from_slice(&h.message_count.to_le_bytes());
    again.extend_from_slice(&h.stream_offset.to_le_bytes());
    again.extend_from_slice(&h.first_message_sequence_number.to_le_bytes());
    again.extend_from_slice(&h.send_time.to_le_bytes());
    assert_eq!(again, bytes);
}
