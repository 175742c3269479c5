use vstd::prelude::*;

verus! {

/// Subtype of a System Event message.
#[derive(Clone, Copy, Debug, PartialEq, Eq, Structural)]
pub enum SystemEvent {
    StartOfMessages,
    StartOfSystemHours,
    StartOfRegularMarketHours,
    EndOfRegularMarketHours,
    EndOfSystemHours,
    EndOfMessages,
}

impl SystemEvent {
    pub open spec fn from_code(byte: u8) -> Option<SystemEvent> {
        if byte == 'O' as u8 {
            Some(SystemEvent::StartOfMessages)
        } else if byte == 'S' as u8 {
            Some(SystemEvent::StartOfSystemHours)
        } else if byte == 'R' as u8 {
            Some(SystemEvent::StartOfRegularMarketHours)
        } else if byte == 'M' as u8 {
            Some(SystemEvent::EndOfRegularMarketHours)
        } else if byte == 'E' as u8 {
            Some(SystemEvent::EndOfSystemHours)
        } else if byte == 'C' as u8 {
            Some(SystemEvent::EndOfMessages)
        } else {
            None
        }
    }

    pub fn from_u8(byte: u8) -> (r: Option<SystemEvent>)
        ensures
            r == Self::from_code(byte),
    {
        match byte {
            0x4f => Some(SystemEvent::StartOfMessages),  // 'O'
            0x53 => Some(SystemEvent::StartOfSystemHours),  // 'S'
            0x52 => Some(SystemEvent::StartOfRegularMarketHours),  // 'R'
            0x4d => Some(SystemEvent::EndOfRegularMarketHours),  // 'M'
            0x45 => Some(SystemEvent::EndOfSystemHours),  // 'E'
            0x43 => Some(SystemEvent::EndOfMessages),  // 'C'
            _ => None,
        }
    }
}

/// Limit Up-Limit Down tier of a security.
#[derive(Clone, Copy, Debug, PartialEq, Eq, Structural)]
pub enum LimitUpLimitDownTier {
    NotApplicable,
    Tier1NmsStock,
    Tier2NmsStock,
}

impl LimitUpLimitDownTier {
    pub open spec fn from_code(byte: u8) -> Option<LimitUpLimitDownTier> {
        if byte == 0 {
            Some(LimitUpLimitDownTier::NotApplicable)
        } else if byte == 1 {
            Some(LimitUpLimitDownTier::Tier1NmsStock)
        } else if byte == 2 {
            Some(LimitUpLimitDownTier::Tier2NmsStock)
        } else {
            None
        }
    }

    pub fn from_u8(byte: u8) -> (r: Option<LimitUpLimitDownTier>)
        ensures
            r == Self::from_code(byte),
    {
        match byte {
            0 => Some(LimitUpLimitDownTier::NotApplicable),
            1 => Some(LimitUpLimitDownTier::Tier1NmsStock),
            2 => Some(LimitUpLimitDownTier::Tier2NmsStock),
            _ => None,
        }
    }
}

/// Trading status of a security.
#[derive(Clone, Copy, Debug, PartialEq, Eq, Structural)]
pub enum TradingStatus {
    Halted,
    HaltReleasedIntoOrderAcceptancePeriod,
    PausedAndOrderAcceptancePeriod,
    Trading,
}

impl TradingStatus {
    pub open spec fn from_code(byte: u8) -> Option<TradingStatus> {
        if byte == 'H' as u8 {
            Some(TradingStatus::Halted)
        } else if byte == 'O' as u8 {
            Some(TradingStatus::HaltReleasedIntoOrderAcceptancePeriod)
        } else if byte == 'P' as u8 {
            Some(TradingStatus::PausedAndOrderAcceptancePeriod)
        } else if byte == 'T' as u8 {
            Some(TradingStatus::Trading)
        } else {
            None
        }
    }

    pub fn from_u8(byte: u8) -> (r: Option<TradingStatus>)
        ensures
            r == Self::from_code(byte),
    {
        match byte {
            0x48 => Some(TradingStatus::Halted),  // 'H'
            0x4f => Some(TradingStatus::HaltReleasedIntoOrderAcceptancePeriod),  // 'O'
            0x50 => Some(TradingStatus::PausedAndOrderAcceptancePeriod),  // 'P'
            0x54 => Some(TradingStatus::Trading),  // 'T'
            _ => None,
        }
    }
}

/// Operational halt status of a security.
#[derive(Clone, Copy, Debug, PartialEq, Eq, Structural)]
pub enum OperationalHaltStatus {
    Halted,
    NotHalted,
}

impl OperationalHaltStatus {
    pub open spec fn from_code(byte: u8) -> Option<OperationalHaltStatus> {
        if byte == 'O' as u8 {
            Some(OperationalHaltStatus::Halted)
        } else if byte == 'N' as u8 {
            Some(OperationalHaltStatus::NotHalted)
        } else {
            None
        }
    }

    pub fn from_u8(byte: u8) -> (r: Option<OperationalHaltStatus>)
        ensures
            r == Self::from_code(byte),
    {
        match byte {
            0x4f => Some(OperationalHaltStatus::Halted),  // 'O'
            0x4e => Some(OperationalHaltStatus::NotHalted),  // 'N'
            _ => None,
        }
    }
}

/// Whether the short-sale price test is in effect.
#[derive(Clone, Copy, Debug, PartialEq, Eq, Structural)]
pub enum ShortSalePriceTestStatus {
    NotInEffect,
    InEffect,
}

impl ShortSalePriceTestStatus {
    pub open spec fn from_code(byte: u8) -> Option<ShortSalePriceTestStatus> {
        if byte == 0 {
            Some(ShortSalePriceTestStatus::NotInEffect)
        } else if byte == 1 {
            Some(ShortSalePriceTestStatus::InEffect)
        } else {
            None
        }
    }

    pub fn from_u8(byte: u8) -> (r: Option<ShortSalePriceTestStatus>)
        ensures
            r == Self::from_code(byte),
    {
        match byte {
            0 => Some(ShortSalePriceTestStatus::NotInEffect),
            1 => Some(ShortSalePriceTestStatus::InEffect),
            _ => None,
        }
    }
}

/// Detail of a short-sale price test status.
#[derive(Clone, Copy, Debug, PartialEq, Eq, Structural)]
pub enum Detail {
    NoPriceTestInPlace,
    Activated,
    Continued,
    Deactivated,
    NotAvailable,
}

impl Detail {
    pub open spec fn from_code(byte: u8) -> Option<Detail> {
        if byte == ' ' as u8 {
            Some(Detail::NoPriceTestInPlace)
        } else if byte == 'A' as u8 {
            Some(Detail::Activated)
        } else if byte == 'C' as u8 {
            Some(Detail::Continued)
        } else if byte == 'D' as u8 {
            Some(Detail::Deactivated)
        } else if byte == 'N' as u8 {
            Some(Detail::NotAvailable)
        } else {
            None
        }
    }

    pub fn from_u8(byte: u8) -> (r: Option<Detail>)
        ensures
            r == Self::from_code(byte),
    {
        match byte {
            0x20 => Some(Detail::NoPriceTestInPlace),  // ' '
            0x41 => Some(Detail::Activated),  // 'A'
            0x43 => Some(Detail::Continued),  // 'C'
            0x44 => Some(Detail::Deactivated),  // 'D'
            0x4e => Some(Detail::NotAvailable),  // 'N'
            _ => None,
        }
    }
}

/// Subtype of a Security Event message.
#[derive(Clone, Copy, Debug, PartialEq, Eq, Structural)]
pub enum SecurityEvent {
    OpeningProcessComplete,
    ClosingProcessComplete,
}

impl SecurityEvent {
    pub open spec fn from_code(byte: u8) -> Option<SecurityEvent> {
        if byte == 'O' as u8 {
            Some(SecurityEvent::OpeningProcessComplete)
        } else if byte == 'C' as u8 {
            Some(SecurityEvent::ClosingProcessComplete)
        } else {
            None
        }
    }

    pub fn from_u8(byte: u8) -> (r: Option<SecurityEvent>)
        ensures
            r == Self::from_code(byte),
    {
        match byte {
            0x4f => Some(SecurityEvent::OpeningProcessComplete),  // 'O'
            0x43 => Some(SecurityEvent::ClosingProcessComplete),  // 'C'
            _ => None,
        }
    }
}

/// Event flags of a Price Level Update message.
#[derive(Clone, Copy, Debug, PartialEq, Eq, Structural)]
pub enum PriceLevelUpdateEventFlags {
    OrderBookIsProcessingAnEvent,
    EventProcessingComplete,
}

impl PriceLevelUpdateEventFlags {
    pub open spec fn from_code(byte: u8) -> Option<PriceLevelUpdateEventFlags> {
        if byte == 0 {
            Some(PriceLevelUpdateEventFlags::OrderBookIsProcessingAnEvent)
        } else if byte == 1 {
            Some(PriceLevelUpdateEventFlags::EventProcessingComplete)
        } else {
            None
        }
    }

    pub fn from_u8(byte: u8) -> (r: Option<PriceLevelUpdateEventFlags>)
        ensures
            r == Self::from_code(byte),
    {
        match byte {
            0 => Some(PriceLevelUpdateEventFlags::OrderBookIsProcessingAnEvent),
            1 => Some(PriceLevelUpdateEventFlags::EventProcessingComplete),
            _ => None,
        }
    }
}

/// Which official price an Official Price message carries.
#[derive(Clone, Copy, Debug, PartialEq, Eq, Structural)]
pub enum PriceType {
    OfficialOpeningPrice,
    OfficialClosingPrice,
}

impl PriceType {
    pub open spec fn from_code(byte: u8) -> Option<PriceType> {
        if byte == 'Q' as u8 {
            Some(PriceType::OfficialOpeningPrice)
        } else if byte == 'M' as u8 {
            Some(PriceType::OfficialClosingPrice)
        } else {
            None
        }
    }

    pub fn from_u8(byte: u8) -> (r: Option<PriceType>)
        ensures
            r == Self::from_code(byte),
    {
        match byte {
            0x51 => Some(PriceType::OfficialOpeningPrice),  // 'Q'
            0x4d => Some(PriceType::OfficialClosingPrice),  // 'M'
            _ => None,
        }
    }
}

/// Kind of auction in an Auction Information message.
#[derive(Clone, Copy, Debug, PartialEq, Eq, Structural)]
pub enum AuctionType {
    Opening,
    Closing,
    Ipo,
    Halt,
    Volatility,
}

impl AuctionType {
    pub open spec fn from_code(byte: u8) -> Option<AuctionType> {
        if byte == 'O' as u8 {
            Some(AuctionType::Opening)
        } else if byte == 'C' as u8 {
            Some(AuctionType::Closing)
        } else if byte == 'I' as u8 {
            Some(AuctionType::Ipo)
        } else if byte == 'H' as u8 {
            Some(AuctionType::Halt)
        } else if byte == 'V' as u8 {
            Some(AuctionType::Volatility)
        } else {
            None
        }
    }

    pub fn from_u8(byte: u8) -> (r: Option<AuctionType>)
        ensures
            r == Self::from_code(byte),
    {
        match byte {
            0x4f => Some(AuctionType::Opening),  // 'O'
            0x43 => Some(AuctionType::Closing),  // 'C'
            0x49 => Some(AuctionType::Ipo),  // 'I'
            0x48 => Some(AuctionType::Halt),  // 'H'
            0x56 => Some(AuctionType::Volatility),  // 'V'
            _ => None,
        }
    }
}

/// Side of an auction imbalance.
#[derive(Clone, Copy, Debug, PartialEq, Eq, Structural)]
pub enum ImbalanceSide {
    BuySideImbalance,
    SellSideImbalance,
    NoImbalance,
}

impl ImbalanceSide {
    pub open spec fn from_code(byte: u8) -> Option<ImbalanceSide> {
        if byte == 'B' as u8 {
            Some(ImbalanceSide::BuySideImbalance)
        } else if byte == 'S' as u8 {
            Some(ImbalanceSide::SellSideImbalance)
        } else if byte == 'N' as u8 {
            Some(ImbalanceSide::NoImbalance)
        } else {
            None
        }
    }

    pub fn from_u8(byte: u8) -> (r: Option<ImbalanceSide>)
        ensures
            r == Self::from_code(byte),
    {
        match byte {
            0x42 => Some(ImbalanceSide::BuySideImbalance),  // 'B'
            0x53 => Some(ImbalanceSide::SellSideImbalance),  // 'S'
            0x4e => Some(ImbalanceSide::NoImbalance),  // 'N'
            _ => None,
        }
    }
}

} // verus!
