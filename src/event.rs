//! Event records written by the matching engine.
use vstd::prelude::*;

verus! {

/// A 32-byte account identifier, held as four little-endian words.
#[derive(Clone, Copy, Debug, PartialEq, Eq, Structural)]
pub struct AccountKey {
    pub w0: u64,
    pub w1: u64,
    pub w2: u64,
    pub w3: u64,
}

impl AccountKey {
    /// Compares two keys, first by their leading word alone.
    pub fn same_as(&self, other: &AccountKey) -> (r: bool)
        ensures
            r == (*self == *other),
    {
        if self.w0 != other.w0 {
            return false;
        }
        self.w1 == other.w1 && self.w2 == other.w2 && self.w3 == other.w3
    }
}

#[derive(Clone, Copy, Debug, PartialEq, Eq, Structural)]
pub enum Side {
    Bid,
    Ask,
}

impl Side {
    pub open spec fn spec_invert(self) -> Side {
        match self {
            Side::Bid => Side::Ask,
            Side::Ask => Side::Bid,
        }
    }

    pub fn invert(self) -> (r: Side)
        ensures
            r == self.spec_invert(),
    {
        match self {
            Side::Bid => Side::Ask,
            Side::Ask => Side::Bid,
        }
    }
}

#[derive(Clone, Copy, Debug, PartialEq, Eq, Structural)]
pub enum EventType {
    Fill,
    Out,
    Liquidate,
    AlreadyProcessed,
}

/// Tag byte of a fill.
pub const TAG_FILL: u8 = 0;
/// Tag byte of an order leaving the book.
pub const TAG_OUT: u8 = 1;
/// Tag byte of a liquidation record.
pub const TAG_LIQUIDATE: u8 = 2;
/// Tag byte of an event that has been consumed.
pub const TAG_ALREADY_PROCESSED: u8 = 3;

/// The event type a tag byte names, if any.
pub open spec fn spec_event_type(tag: u8) -> Option<EventType> {
    if tag == TAG_FILL {
        Some(EventType::Fill)
    } else if tag == TAG_OUT {
        Some(EventType::Out)
    } else if tag == TAG_LIQUIDATE {
        Some(EventType::Liquidate)
    } else if tag == TAG_ALREADY_PROCESSED {
        Some(EventType::AlreadyProcessed)
    } else {
        None
    }
}

impl EventType {
    /// Decodes a tag byte, rejecting values outside the known set.
    pub fn from_tag(tag: u8) -> (r: Option<EventType>)
        ensures
            r == spec_event_type(tag),
    {
        if tag == TAG_FILL {
            Some(EventType::Fill)
        } else if tag == TAG_OUT {
            Some(EventType::Out)
        } else if tag == TAG_LIQUIDATE {
            Some(EventType::Liquidate)
        } else if tag == TAG_ALREADY_PROCESSED {
            Some(EventType::AlreadyProcessed)
        } else {
            None
        }
    }
}

/// One slot of the event queue. The tag byte decides which fields are read:
/// a fill reads the maker and taker fields, an out event the owner fields.
#[derive(Clone, Copy, Debug, PartialEq, Eq, Structural)]
pub struct Event {
    pub event_type: u8,
    /// Side of the taker (fill).
    pub taker_side: Side,
    /// Whether the maker's order left the book with this fill.
    pub maker_out: bool,
    /// Slot of the maker's order in the maker's order table (fill).
    pub maker_slot: u8,
    pub timestamp: u64,
    pub seq_num: u64,
    pub maker: AccountKey,
    pub maker_client_order_id: u64,
    pub taker: AccountKey,
    pub taker_client_order_id: u64,
    /// Price in lots (fill).
    pub price: i64,
    /// Base lots traded (fill) or left on the book (out).
    pub quantity: i64,
    /// Owner of the order that left the book (out).
    pub owner: AccountKey,
    /// Slot of that order in the owner's order table (out).
    pub owner_slot: u8,
}

impl Event {
    pub open spec fn is_processed(self) -> bool {
        self.event_type == TAG_ALREADY_PROCESSED
    }

    pub open spec fn is_out(self) -> bool {
        self.event_type == TAG_OUT
    }

    /// The same event with its tag set to consumed.
    pub open spec fn marked(self) -> Event {
        Event { event_type: TAG_ALREADY_PROCESSED, ..self }
    }
}

} // verus!
