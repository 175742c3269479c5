use crate::bytes::{le_value, read_u32, read_u64};
use crate::codes::{
    AuctionType, Detail, ImbalanceSide, LimitUpLimitDownTier, OperationalHaltStatus,
    PriceLevelUpdateEventFlags, PriceType, SecurityEvent, ShortSalePriceTestStatus, SystemEvent,
    TradingStatus,
};
use vstd::prelude::*;

verus! {

/// An instrument symbol: eight ASCII bytes, right-padded with spaces.
pub type MessageSymbol = [u8; 8];

/// Trade Report and Trade Break records must hold at least this many bytes.
pub const TRADE_RECORD_MIN_LEN: usize = 38;

pub struct SystemEventMessage {
    pub system_event: SystemEvent,
}

pub struct SecurityDirectoryMessage {
    pub symbol: MessageSymbol,
    pub round_lot_size: u32,
    pub adjusted_poc_price: u64,
    pub luld_tier: LimitUpLimitDownTier,
    pub flags: u8,
}

pub struct TradingStatusMessage {
    pub symbol: MessageSymbol,
    pub reason: [u8; 4],
    pub trading_status: TradingStatus,
}

pub struct OperationalHaltStatusMessage {
    pub symbol: MessageSymbol,
    pub operational_halt_status: OperationalHaltStatus,
}

pub struct ShortSalePriceTestStatusMessage {
    pub symbol: MessageSymbol,
    pub detail: Detail,
    pub short_sale_price_test_status: ShortSalePriceTestStatus,
}

pub struct SecurityEventMessage {
    pub symbol: MessageSymbol,
    pub security_event: SecurityEvent,
}

pub struct PriceLevelUpdateMessage {
    pub symbol: MessageSymbol,
    pub size: u32,
    pub price: u64,
    pub event_flags: PriceLevelUpdateEventFlags,
}

pub struct TradeReportMessage {
    pub symbol: MessageSymbol,
    pub size: u32,
    pub price: u64,
    pub trade_id: u64,
    pub sale_condition_flags: u8,
}

pub struct OfficialPriceMessage {
    pub symbol: MessageSymbol,
    pub official_price: u64,
    pub price_type: PriceType,
}

pub struct TradeBreakMessage {
    pub symbol: MessageSymbol,
    pub size: u32,
    pub price: u64,
    pub trade_id: u64,
    pub sale_condition_flags: u8,
}

/// Layout of an Auction Information message; such records are not decoded.
pub struct AuctionInformationMessage {
    pub symbol: MessageSymbol,
    pub paired_shares: u32,
    pub reference_price: u64,
    pub indicative_clearing_price: u64,
    pub imbalance_shares: u32,
    pub imbalance_side: ImbalanceSide,
    pub extension_number: u8,
    pub scheduled_auction_time: u32,
    pub auction_book_clearing_price: u64,
    pub collar_reference_price: u64,
    pub lower_auction_collar: u64,
    pub upper_auction_collar: u64,
    pub auction_type: AuctionType,
}

/// The kind-specific part of a decoded message.
pub enum IexDeepMessageImpl {
    SystemEvent(SystemEventMessage),
    SecurityDirectory(SecurityDirectoryMessage),
    TradingStatus(TradingStatusMessage),
    OperationalHaltStatus(OperationalHaltStatusMessage),
    ShortSalePriceTestStatus(ShortSalePriceTestStatusMessage),
    SecurityEvent(SecurityEventMessage),
    PriceLevelUpdate(PriceLevelUpdateMessage),
    TradeReport(TradeReportMessage),
    OfficialPrice(OfficialPriceMessage),
    TradeBreak(TradeBreakMessage),
    AuctionInformation(AuctionInformationMessage),
}

/// One decoded DEEP message with its provenance.
pub struct IexDeepMessage {
    pub message_type: u8,
    pub message_subtype: u8,
    /// Nanoseconds since the epoch.
    pub timestamp: u64,
    pub body: IexDeepMessageImpl,
    /// Index of the packet the message came from.
    pub packet_number: u64,
    pub message_sequence_number: u64,
}

/// The value of the `n` bytes of `s` that start at `at`.
pub open spec fn field(s: Seq<u8>, at: int, n: int) -> nat {
    le_value(s.subrange(at, at + n))
}

/// The symbol field of a record.
pub open spec fn symbol_field(s: Seq<u8>) -> Seq<u8> {
    s.subrange(10, 18)
}

/// Whether a record is long enough for its type's fields and carries valid
/// codes. Auction Information and unknown types are never accepted.
pub open spec fn record_accepted(s: Seq<u8>) -> bool {
    &&& s.len() >= 10
    &&& {
        let t = s[0];
        if t == 'S' as u8 {
            SystemEvent::from_code(s[1]) is Some
        } else if t == 'D' as u8 {
            s.len() >= 31 && LimitUpLimitDownTier::from_code(s[30]) is Some
        } else if t == 'H' as u8 {
            s.len() >= 22 && TradingStatus::from_code(s[1]) is Some
        } else if t == 'O' as u8 {
            s.len() >= 18 && OperationalHaltStatus::from_code(s[1]) is Some
        } else if t == 'P' as u8 {
            s.len() >= 19 && ShortSalePriceTestStatus::from_code(s[1]) is Some
                && Detail::from_code(s[18]) is Some
        } else if t == 'E' as u8 {
            s.len() >= 18 && SecurityEvent::from_code(s[1]) is Some
        } else if t == '8' as u8 || t == '5' as u8 {
            s.len() >= 30 && PriceLevelUpdateEventFlags::from_code(s[1]) is Some
        } else if t == 'T' as u8 || t == 'B' as u8 {
            s.len() >= 38
        } else if t == 'X' as u8 {
            s.len() >= 26 && PriceType::from_code(s[1]) is Some
        } else {
            false
        }
    }
}

/// Whether `body` holds exactly the fields that record `s` encodes.
pub open spec fn body_decodes(s: Seq<u8>, body: IexDeepMessageImpl) -> bool {
    let t = s[0];
    match body {
        IexDeepMessageImpl::SystemEvent(m) => t == 'S' as u8 && SystemEvent::from_code(s[1])
            == Some(m.system_event),
        IexDeepMessageImpl::SecurityDirectory(m) => {
            &&& t == 'D' as u8
            &&& m.flags == s[1]
            &&& m.symbol@ == symbol_field(s)
            &&& m.round_lot_size == field(s, 18, 4)
            &&& m.adjusted_poc_price == field(s, 22, 8)
            &&& LimitUpLimitDownTier::from_code(s[30]) == Some(m.luld_tier)
        },
        IexDeepMessageImpl::TradingStatus(m) => {
            &&& t == 'H' as u8
            &&& TradingStatus::from_code(s[1]) == Some(m.trading_status)
            &&& m.symbol@ == symbol_field(s)
            &&& m.reason@ == s.subrange(18, 22)
        },
        IexDeepMessageImpl::OperationalHaltStatus(m) => {
            &&& t == 'O' as u8
            &&& OperationalHaltStatus::from_code(s[1]) == Some(m.operational_halt_status)
            &&& m.symbol@ == symbol_field(s)
        },
        IexDeepMessageImpl::ShortSalePriceTestStatus(m) => {
            &&& t == 'P' as u8
            &&& ShortSalePriceTestStatus::from_code(s[1]) == Some(m.short_sale_price_test_status)
            &&& Detail::from_code(s[18]) == Some(m.detail)
            &&& m.symbol@ == symbol_field(s)
        },
        IexDeepMessageImpl::SecurityEvent(m) => {
            &&& t == 'E' as u8
            &&& SecurityEvent::from_code(s[1]) == Some(m.security_event)
            &&& m.symbol@ == symbol_field(s)
        },
        IexDeepMessageImpl::PriceLevelUpdate(m) => {
            &&& (t == '8' as u8 || t == '5' as u8)
            &&& PriceLevelUpdateEventFlags::from_code(s[1]) == Some(m.event_flags)
            &&& m.symbol@ == symbol_field(s)
            &&& m.size == field(s, 18, 4)
            &&& m.price == field(s, 22, 8)
        },
        IexDeepMessageImpl::TradeReport(m) => {
            &&& t == 'T' as u8
            &&& m.sale_condition_flags == s[1]
            &&& m.symbol@ == symbol_field(s)
            &&& m.size == field(s, 18, 4)
            &&& m.price == field(s, 22, 8)
            &&& m.trade_id == field(s, 30, 8)
        },
        IexDeepMessageImpl::OfficialPrice(m) => {
            &&& t == 'X' as u8
            &&& PriceType::from_code(s[1]) == Some(m.price_type)
            &&& m.symbol@ == symbol_field(s)
            &&& m.official_price == field(s, 18, 8)
        },
        IexDeepMessageImpl::TradeBreak(m) => {
            &&& t == 'B' as u8
            &&& m.sale_condition_flags == s[1]
            &&& m.symbol@ == symbol_field(s)
            &&& m.size == field(s, 18, 4)
            &&& m.price == field(s, 22, 8)
            &&& m.trade_id == field(s, 30, 8)
        },
        IexDeepMessageImpl::AuctionInformation(_) => false,
    }
}

/// Whether `m` is the message that record `s` decodes to, numbered
/// `sequence_number` within packet `packet`.
pub open spec fn decodes_to(s: Seq<u8>, packet: u64, sequence_number: u64, m: IexDeepMessage) -> bool {
    &&& m.message_type == s[0]
    &&& m.message_subtype == s[1]
    &&& m.timestamp == field(s, 2, 8)
    &&& m.packet_number == packet
    &&& m.message_sequence_number == sequence_number
    &&& body_decodes(s, m.body)
}

fn symbol_at(bytes: &[u8]) -> (r: MessageSymbol)
    requires
        bytes@.len() >= 18,
    ensures
        r@ == symbol_field(bytes@),
{
    let r = [
        bytes[10],
        bytes[11],
        bytes[12],
        bytes[13],
        bytes[14],
        bytes[15],
        bytes[16],
        bytes[17],
    ];
    assert(r@ =~= symbol_field(bytes@));
    r
}

fn reason_at(bytes: &[u8]) -> (r: [u8; 4])
    requires
        bytes@.len() >= 22,
    ensures
        r@ == bytes@.subrange(18, 22),
{
    let r = [bytes[18], bytes[19], bytes[20], bytes[21]];
    assert(r@ =~= bytes@.subrange(18, 22));
    r
}

/// Decodes one message record. The record is rejected (`None`) when it is too
/// short for its type's fields, carries an unknown type or code, or is an
/// Auction Information record; nothing past the end of `bytes` is read.
pub fn parse_message(bytes: &[u8], packet_num: u64, message_seq_num: u64) -> (r: Option<
    IexDeepMessage,
>)
    ensures
        r is Some <==> record_accepted(bytes@),
        r matches Some(m) ==> decodes_to(bytes@, packet_num, message_seq_num, m),
{
    if bytes.len() < 10 {
        return None;
    }
    let len = bytes.len();
    let message_type = bytes[0];
    let message_subtype = bytes[1];
    let timestamp = read_u64(bytes, 2);
    let body = if message_type == 'S' as u8 {
        match SystemEvent::from_u8(message_subtype) {
            Some(system_event) => IexDeepMessageImpl::SystemEvent(
                SystemEventMessage { system_event },
            ),
            None => return None,
        }
    } else if message_type == 'D' as u8 {
        if len < 31 {
            return None;
        }
        match LimitUpLimitDownTier::from_u8(bytes[30]) {
            Some(luld_tier) => IexDeepMessageImpl::SecurityDirectory(
                SecurityDirectoryMessage {
                    symbol: symbol_at(bytes),
                    round_lot_size: read_u32(bytes, 18),
                    adjusted_poc_price: read_u64(bytes, 22),
                    luld_tier,
                    flags: message_subtype,
                },
            ),
            None => return None,
        }
    } else if message_type == 'H' as u8 {
        if len < 22 {
            return None;
        }
        match TradingStatus::from_u8(message_subtype) {
            Some(trading_status) => IexDeepMessageImpl::TradingStatus(
                TradingStatusMessage {
                    symbol: symbol_at(bytes),
                    reason: reason_at(bytes),
                    trading_status,
                },
            ),
            None => return None,
        }
    } else if message_type == 'O' as u8 {
        if len < 18 {
            return None;
        }
        match OperationalHaltStatus::from_u8(message_subtype) {
            Some(operational_halt_status) => IexDeepMessageImpl::OperationalHaltStatus(
                OperationalHaltStatusMessage { symbol: symbol_at(bytes), operational_halt_status },
            ),
            None => return None,
        }
    } else if message_type == 'P' as u8 {
        if len < 19 {
            return None;
        }
        match (ShortSalePriceTestStatus::from_u8(message_subtype), Detail::from_u8(bytes[18])) {
            (Some(short_sale_price_test_status), Some(detail)) =>
                IexDeepMessageImpl::ShortSalePriceTestStatus(
                ShortSalePriceTestStatusMessage {
                    symbol: symbol_at(bytes),
                    detail,
                    short_sale_price_test_status,
                },
            ),
            _ => return None,
        }
    } else if message_type == 'E' as u8 {
        if len < 18 {
            return None;
        }
        match SecurityEvent::from_u8(message_subtype) {
            Some(security_event) => IexDeepMessageImpl::SecurityEvent(
                SecurityEventMessage { symbol: symbol_at(bytes), security_event },
            ),
            None => return None,
        }
    } else if message_type == '8' as u8 || message_type == '5' as u8 {
        if len < 30 {
            return None;
        }
        match PriceLevelUpdateEventFlags::from_u8(message_subtype) {
            Some(event_flags) => IexDeepMessageImpl::PriceLevelUpdate(
                PriceLevelUpdateMessage {
                    symbol: symbol_at(bytes),
                    size: read_u32(bytes, 18),
                    price: read_u64(bytes, 22),
                    event_flags,
                },
            ),
            None => return None,
        }
    } else if message_type == 'T' as u8 {
        if len < TRADE_RECORD_MIN_LEN {
            return None;
        }
        IexDeepMessageImpl::TradeReport(
            TradeReportMessage {
                symbol: symbol_at(bytes),
                size: read_u32(bytes, 18),
                price: read_u64(bytes, 22),
                trade_id: read_u64(bytes, 30),
                sale_condition_flags: message_subtype,
            },
        )
    } else if message_type == 'X' as u8 {
        if len < 26 {
            return None;
        }
        match PriceType::from_u8(message_subtype) {
            Some(price_type) => IexDeepMessageImpl::OfficialPrice(
                OfficialPriceMessage {
                    symbol: symbol_at(bytes),
                    official_price: read_u64(bytes, 18),
                    price_type,
                },
            ),
            None => return None,
        }
    } else if message_type == 'B' as u8 {
        if len < TRADE_RECORD_MIN_LEN {
            return None;
        }
        IexDeepMessageImpl::TradeBreak(
            TradeBreakMessage {
                symbol: symbol_at(bytes),
                size: read_u32(bytes, 18),
                price: read_u64(bytes, 22),
                trade_id: read_u64(bytes, 30),
                sale_condition_flags: message_subtype,
            },
        )
    } else {
        // Auction Information is not decoded; other types are unknown.
        return None;
    };
    Some(
        IexDeepMessage {
            message_type,
            message_subtype,
            timestamp,
            body,
            packet_number: packet_num,
            message_sequence_number: message_seq_num,
        },
    )
}

/// A Trade Report or Trade Break record is accepted exactly when it holds at
/// least 38 bytes: one of 37 bytes is rejected, one of 38 bytes accepted.
pub proof fn lemma_trade_record_length(s: Seq<u8>)
    requires
        s.len() >= 1,
        s[0] == 'T' as u8 || s[0] == 'B' as u8,
    ensures
        record_accepted(s) <==> s.len() >= 38,
        s.len() == 37 ==> !record_accepted(s),
        s.len() == 38 ==> record_accepted(s),
{
}

} // verus!
