use crate::bytes::{byte_range, le_value, lemma_le_bytes_of_value, lemma_value_below, read_u64};
use crate::message::{IexDeepMessage, IexDeepMessageImpl, MessageSymbol};
use std::collections::HashMap;
use vstd::prelude::*;

verus! {

/// Scale that turns an integer price into currency units.
pub const PRICE_MULTIPLIER: u64 = 10000;

/// A priced trading event, as stored per symbol. The symbol itself is the
/// key of the collection the tick belongs to.
#[derive(Clone, Copy, Debug, PartialEq, Eq, Structural)]
pub struct Tick {
    pub message_type: u8,
    pub message_subtype: u8,
    /// Nanoseconds since the epoch.
    pub timestamp: u64,
    pub size: u32,
    pub price: u64,
    pub price_multiplier: u64,
    pub packet_number: u64,
    pub message_sequence_number: u64,
}

/// The price multiplier in force at `timestamp`: the same for every session.
pub open spec fn multiplier_for_timestamp(timestamp: u64) -> u64 {
    PRICE_MULTIPLIER
}

/// The price multiplier in force at `timestamp`.
pub fn get_price_multiplier_for_timestamp(timestamp: u64) -> (r: u64)
    ensures
        r == multiplier_for_timestamp(timestamp),
{
    PRICE_MULTIPLIER
}

/// The tick a message projects to: Trade Reports and Price Level Updates give
/// one, every other kind none.
pub open spec fn tick_of(m: IexDeepMessage) -> Option<Tick> {
    let tick = |size: u32, price: u64|
        Tick {
            message_type: m.message_type,
            message_subtype: m.message_subtype,
            timestamp: m.timestamp,
            size,
            price,
            price_multiplier: multiplier_for_timestamp(m.timestamp),
            packet_number: m.packet_number,
            message_sequence_number: m.message_sequence_number,
        };
    match m.body {
        IexDeepMessageImpl::TradeReport(b) => Some(tick(b.size, b.price)),
        IexDeepMessageImpl::PriceLevelUpdate(b) => Some(tick(b.size, b.price)),
        _ => None,
    }
}

/// The symbol under which a message's tick is grouped.
pub open spec fn symbol_of(m: IexDeepMessage) -> Option<MessageSymbol> {
    match m.body {
        IexDeepMessageImpl::TradeReport(b) => Some(b.symbol),
        IexDeepMessageImpl::PriceLevelUpdate(b) => Some(b.symbol),
        _ => None,
    }
}

impl IexDeepMessage {
    /// The tick this message projects to, if it is a Trade Report or a Price
    /// Level Update.
    pub fn to_serialized_tick(&self) -> (r: Option<Tick>)
        ensures
            r == tick_of(*self),
    {
        match &self.body {
            IexDeepMessageImpl::TradeReport(m) => Some(
                Tick {
                    message_type: self.message_type,
                    message_subtype: self.message_subtype,
                    timestamp: self.timestamp,
                    size: m.size,
                    price: m.price,
                    price_multiplier: get_price_multiplier_for_timestamp(self.timestamp),
                    packet_number: self.packet_number,
                    message_sequence_number: self.message_sequence_number,
                },
            ),
            IexDeepMessageImpl::PriceLevelUpdate(m) => Some(
                Tick {
                    message_type: self.message_type,
                    message_subtype: self.message_subtype,
                    timestamp: self.timestamp,
                    size: m.size,
                    price: m.price,
                    price_multiplier: get_price_multiplier_for_timestamp(self.timestamp),
                    packet_number: self.packet_number,
                    message_sequence_number: self.message_sequence_number,
                },
            ),
            _ => None,
        }
    }

    /// The symbol of a Trade Report or a Price Level Update.
    pub fn symbol(&self) -> (r: Option<MessageSymbol>)
        ensures
            r == symbol_of(*self),
    {
        match &self.body {
            IexDeepMessageImpl::TradeReport(m) => Some(m.symbol),
            IexDeepMessageImpl::PriceLevelUpdate(m) => Some(m.symbol),
            _ => None,
        }
    }
}

/// The key a symbol is grouped under: its eight bytes read as a
/// little-endian number, so that distinct symbols have distinct keys.
pub open spec fn key_of(symbol: MessageSymbol) -> u64 {
    le_value(symbol@) as u64
}

/// Distinct symbols have distinct keys.
pub proof fn lemma_key_of_injective(a: MessageSymbol, b: MessageSymbol)
    ensures
        key_of(a) == key_of(b) <==> a@ == b@,
{
    reveal_with_fuel(byte_range, 9);
    lemma_value_below(a@);
    lemma_value_below(b@);
    lemma_le_bytes_of_value(a@);
    lemma_le_bytes_of_value(b@);
}

/// The key a symbol is grouped under.
pub fn symbol_key(symbol: &MessageSymbol) -> (r: u64)
    ensures
        r == key_of(*symbol),
{
    broadcast use vstd::array::group_array_axioms;

    let bytes = symbol.as_slice();
    assert(bytes@.subrange(0, 8) =~= symbol@);
    read_u64(bytes, 0)
}

/// The ticks, in order, that the messages of `msgs` grouped under `key`
/// project to.
pub open spec fn ticks_under(msgs: Seq<IexDeepMessage>, key: u64) -> Seq<Tick>
    decreases msgs.len(),
{
    if msgs.len() == 0 {
        Seq::empty()
    } else {
        let prev = ticks_under(msgs.drop_last(), key);
        let m = msgs.last();
        match (tick_of(m), symbol_of(m)) {
            (Some(t), Some(s)) => if key_of(s) == key {
                prev.push(t)
            } else {
                prev
            },
            _ => prev,
        }
    }
}

/// How many messages of `msgs` have type `message_type`.
pub open spec fn type_occurrences(msgs: Seq<IexDeepMessage>, message_type: u8) -> nat
    decreases msgs.len(),
{
    if msgs.len() == 0 {
        0
    } else {
        type_occurrences(msgs.drop_last(), message_type) + if msgs.last().message_type
            == message_type {
            1nat
        } else {
            0nat
        }
    }
}

/// `n`, or `u64::MAX` where `n` is larger.
pub open spec fn saturated(n: int) -> int {
    if n > u64::MAX {
        u64::MAX as int
    } else {
        n
    }
}

/// Ticks grouped by symbol key, with a count of the messages seen of each
/// message type.
pub struct TickStore {
    pub by_symbol: HashMap<u64, Vec<Tick>>,
    pub type_counts: HashMap<u8, u64>,
}

impl TickStore {
    /// The ticks stored under `key`, oldest first.
    pub open spec fn ticks_for(&self, key: u64) -> Seq<Tick> {
        if self.by_symbol@.contains_key(key) {
            self.by_symbol@[key]@
        } else {
            Seq::empty()
        }
    }

    /// How many messages of type `message_type` were counted.
    pub open spec fn count_for(&self, message_type: u8) -> int {
        if self.type_counts@.contains_key(message_type) {
            self.type_counts@[message_type] as int
        } else {
            0
        }
    }

    pub fn new() -> (r: TickStore)
        ensures
            forall|k: u64| (#[trigger] r.ticks_for(k)).len() == 0,
            forall|t: u8| #[trigger] r.count_for(t) == 0,
    {
        TickStore { by_symbol: HashMap::new(), type_counts: HashMap::new() }
    }

    /// Counts the message and, if it projects to a tick, appends the tick
    /// under its symbol. The count saturates at `u64::MAX`.
    pub fn add_message(&mut self, m: &IexDeepMessage)
        ensures
            forall|k: u64|
                #[trigger] final(self).ticks_for(k) == match (tick_of(*m), symbol_of(*m)) {
                    (Some(t), Some(s)) => if key_of(s) == k {
                        old(self).ticks_for(k).push(t)
                    } else {
                        old(self).ticks_for(k)
                    },
                    _ => old(self).ticks_for(k),
                },
            forall|t: u8|
                #[trigger] final(self).count_for(t) == if t == m.message_type {
                    saturated(old(self).count_for(t) + 1)
                } else {
                    old(self).count_for(t)
                },
    {
        broadcast use vstd::std_specs::hash::group_hash_axioms;

        let message_type = m.message_type;
        let count: u64 = match self.type_counts.get(&message_type) {
            Some(c) => *c,
            None => 0,
        };
        self.type_counts.insert(message_type, count.saturating_add(1));
        match (m.to_serialized_tick(), m.symbol()) {
            (Some(tick), Some(symbol)) => {
                let key = symbol_key(&symbol);
                let mut ticks = match self.by_symbol.remove(&key) {
                    Some(v) => v,
                    None => Vec::new(),
                };
                ticks.push(tick);
                self.by_symbol.insert(key, ticks);
            },
            _ => {},
        }
    }

    /// Adds every message of `msgs`, in order.
    pub fn add_messages(&mut self, msgs: &Vec<IexDeepMessage>)
        ensures
            forall|k: u64|
                #[trigger] final(self).ticks_for(k) == old(self).ticks_for(k) + ticks_under(
                    msgs@,
                    k,
                ),
            forall|t: u8|
                #[trigger] final(self).count_for(t) == saturated(
                    old(self).count_for(t) + type_occurrences(msgs@, t),
                ),
    {
        let ghost start = *self;
        let mut i: usize = 0;
        while i < msgs.len()
            invariant
                0 <= i <= msgs@.len(),
                forall|k: u64|
                    #[trigger] self.ticks_for(k) == start.ticks_for(k) + ticks_under(
                        msgs@.subrange(0, i as int),
                        k,
                    ),
                forall|t: u8|
                    #[trigger] self.count_for(t) == saturated(
                        start.count_for(t) + type_occurrences(msgs@.subrange(0, i as int), t),
                    ),
                forall|t: u8| 0 <= #[trigger] self.count_for(t) <= u64::MAX,
                forall|t: u8| 0 <= #[trigger] start.count_for(t) <= u64::MAX,
            decreases msgs@.len() - i,
        {
            let ghost before = *self;
            self.add_message(&msgs[i]);
            proof {
                let pre = msgs@.subrange(0, i as int);
                let next = msgs@.subrange(0, i + 1);
                assert(next.drop_last() =~= pre);
                assert(next.last() == msgs@[i as int]);
                assert forall|k: u64| #[trigger]
                    self.ticks_for(k) == start.ticks_for(k) + ticks_under(next, k) by {
                    assert(start.ticks_for(k) + ticks_under(pre, k).push(
                        tick_of(msgs@[i as int]).unwrap(),
                    ) =~= (start.ticks_for(k) + ticks_under(pre, k)).push(
                        tick_of(msgs@[i as int]).unwrap(),
                    ));
                }
                assert forall|t: u8| #[trigger]
                    self.count_for(t) == saturated(
                        start.count_for(t) + type_occurrences(next, t),
                    ) by {
                    assert(before.count_for(t) == saturated(
                        start.count_for(t) + type_occurrences(pre, t),
                    ));
                }
            }
            i = i + 1;
        }
        assert(msgs@.subrange(0, msgs@.len() as int) =~= msgs@);
    }
}

} // verus!
