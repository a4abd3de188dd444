//! Accounts, their perp position and order table, and the fill accounting.
use crate::error::MangoError;
use crate::event::{AccountKey, Event, Side};
use crate::fixed_point::{checked_add, from_int, in_i128, in_i64, one};
use vstd::prelude::*;

verus! {

/// Aggregate state of a perp market.
#[derive(Clone, Copy, Debug, PartialEq, Eq, Structural)]
pub struct PerpMarket {
    pub perp_market_index: u16,
    pub settle_token_index: u16,
    /// Native quote units in one quote lot.
    pub quote_lot_size: i64,
    /// Once set, only unwinding operations are allowed.
    pub force_close: bool,
    /// Cumulative funding per base lot for longs (I80F48 bits).
    pub long_funding: i128,
    /// Cumulative funding per base lot for shorts (I80F48 bits).
    pub short_funding: i128,
}

/// A position in one perp market.
#[derive(Clone, Copy, Debug, PartialEq, Eq, Structural)]
pub struct PerpPosition {
    pub market_index: u16,
    /// Confirmed inventory.
    pub base_position_lots: i64,
    /// Lots reserved by resting bids.
    pub bids_base_lots: i64,
    /// Lots reserved by resting asks.
    pub asks_base_lots: i64,
    /// Base lots of own taker fills still on the queue.
    pub taker_base_lots: i64,
    /// Quote lots of own taker fills still on the queue.
    pub taker_quote_lots: i64,
    /// Quote balance in native units (I80F48 bits).
    pub quote_position_native: i128,
    pub long_settled_funding: i128,
    pub short_settled_funding: i128,
    /// Running total of quote moved between this position and the token balance.
    pub perp_spot_transfers: i64,
}

/// The fixed part of an account: everything but its order table.
#[derive(Clone, Copy, Debug, PartialEq, Eq, Structural)]
pub struct MangoAccountFixed {
    pub key: AccountKey,
    /// Whether the account is owned by the program.
    pub owned_by_program: bool,
    pub perp_spot_transfers: i64,
    pub position_active: bool,
    pub position: PerpPosition,
    /// Index of the token that the token position holds.
    pub token_index: u16,
    /// Token balance in reserve-indexed units (I80F48 bits).
    pub token_indexed_position: i128,
}

/// One slot of an account's order table.
#[derive(Clone, Copy, Debug, PartialEq, Eq, Structural)]
pub struct OpenOrder {
    pub side: Side,
    pub active: bool,
}

#[derive(Clone, Debug)]
pub struct MangoAccount {
    pub fixed: MangoAccountFixed,
    pub orders: Vec<OpenOrder>,
}

/// An account as a mathematical value.
pub type AccountModel = (MangoAccountFixed, Seq<OpenOrder>);

impl View for MangoAccount {
    type V = AccountModel;

    open spec fn view(&self) -> AccountModel {
        (self.fixed, self.orders@)
    }
}

/// Base lots that `side` gains in a trade of `qty` lots.
pub open spec fn base_change(side: Side, qty: int) -> int {
    match side {
        Side::Bid => qty,
        Side::Ask => -qty,
    }
}

/// Quote lots that `side` gains in a trade of `qty` lots at `price`.
pub open spec fn quote_change(side: Side, price: int, qty: int) -> int {
    match side {
        Side::Bid => -(price * qty),
        Side::Ask => price * qty,
    }
}

/// The reserved lot counter of `side`.
pub open spec fn reserved(p: PerpPosition, side: Side) -> int {
    match side {
        Side::Bid => p.bids_base_lots as int,
        Side::Ask => p.asks_base_lots as int,
    }
}

/// `p` with the reserved lot counter of `side` set to `v`.
pub open spec fn with_reserved(p: PerpPosition, side: Side, v: i64) -> PerpPosition {
    match side {
        Side::Bid => PerpPosition { bids_base_lots: v, ..p },
        Side::Ask => PerpPosition { asks_base_lots: v, ..p },
    }
}

/// Releases `qty` lots reserved on `side`.
pub open spec fn spec_release(p: PerpPosition, side: Side, qty: int) -> Result<PerpPosition, MangoError> {
    if qty < 0 || reserved(p, side) - qty < 0 {
        Err(MangoError::ReservedLotsUnderflow)
    } else {
        Ok(with_reserved(p, side, (reserved(p, side) - qty) as i64))
    }
}

/// Removes the order in `slot` of the order table, releasing `qty` of its side's lots.
pub open spec fn spec_remove_order(a: AccountModel, slot: int, qty: int) -> Result<AccountModel, MangoError> {
    if !(0 <= slot < a.1.len()) || !a.1[slot].active {
        Err(MangoError::InvalidOrderSlot)
    } else {
        match spec_release(a.0.position, a.1[slot].side, qty) {
            Err(e) => Err(e),
            Ok(p) => Ok((
                MangoAccountFixed { position: p, ..a.0 },
                a.1.update(slot, OpenOrder { active: false, ..a.1[slot] }),
            )),
        }
    }
}

/// Books a trade of `side` into the confirmed inventory and quote balance.
pub open spec fn spec_record_trade(p: PerpPosition, side: Side, fill: Event, quote_lot_size: int) -> Result<PerpPosition, MangoError> {
    let lots = fill.price * fill.quantity;
    let native = quote_lot_size * lots;
    let base = p.base_position_lots + base_change(side, fill.quantity as int);
    let quote = p.quote_position_native + (match side {
        Side::Bid => -native,
        Side::Ask => native,
    }) * one();
    if fill.quantity < 0 || !in_i64(lots) || !in_i64(native) || !in_i64(base) || !in_i128(quote) {
        Err(MangoError::MathOverflow)
    } else {
        Ok(PerpPosition { base_position_lots: base as i64, quote_position_native: quote as i128, ..p })
    }
}

/// The maker's side of a fill: the trade is booked and the maker's order
/// reservation released (the order slot too, where the order left the book).
pub open spec fn spec_maker(a: AccountModel, fill: Event, market: PerpMarket) -> Result<AccountModel, MangoError> {
    let side = fill.taker_side.spec_invert();
    match spec_record_trade(a.0.position, side, fill, market.quote_lot_size as int) {
        Err(e) => Err(e),
        Ok(p) => {
            let a1 = (MangoAccountFixed { position: p, ..a.0 }, a.1);
            if fill.maker_out {
                spec_remove_order(a1, fill.maker_slot as int, fill.quantity as int)
            } else {
                match spec_release(p, side, fill.quantity as int) {
                    Err(e) => Err(e),
                    Ok(p2) => Ok((MangoAccountFixed { position: p2, ..a.0 }, a.1)),
                }
            }
        }
    }
}

/// The taker's side of a fill: the pending taker lots are converted into
/// confirmed inventory and quote balance.
pub open spec fn spec_taker(a: AccountModel, fill: Event, market: PerpMarket) -> Result<AccountModel, MangoError> {
    let side = fill.taker_side;
    let tb = a.0.position.taker_base_lots - base_change(side, fill.quantity as int);
    let tq = a.0.position.taker_quote_lots - quote_change(side, fill.price as int, fill.quantity as int);
    match spec_record_trade(a.0.position, side, fill, market.quote_lot_size as int) {
        Err(e) => Err(e),
        Ok(p) => if !in_i64(tb) || !in_i64(tq) {
            Err(MangoError::MathOverflow)
        } else {
            Ok((
                MangoAccountFixed {
                    position: PerpPosition { taker_base_lots: tb as i64, taker_quote_lots: tq as i64, ..p },
                    ..a.0
                },
                a.1,
            ))
        },
    }
}

pub open spec fn unit_result(s: Result<AccountModel, MangoError>) -> Result<(), MangoError> {
    match s {
        Ok(_) => Ok(()),
        Err(e) => Err(e),
    }
}

fn release(p: &mut PerpPosition, side: Side, qty: i64) -> (r: Result<(), MangoError>)
    ensures
        match spec_release(*old(p), side, qty as int) {
            Ok(n) => r == Ok::<(), MangoError>(()) && *final(p) == n,
            Err(e) => r == Err::<(), MangoError>(e),
        },
{
    if qty < 0 {
        return Err(MangoError::ReservedLotsUnderflow);
    }
    match side {
        Side::Bid => {
            if p.bids_base_lots < qty {
                return Err(MangoError::ReservedLotsUnderflow);
            }
            p.bids_base_lots = p.bids_base_lots - qty;
        },
        Side::Ask => {
            if p.asks_base_lots < qty {
                return Err(MangoError::ReservedLotsUnderflow);
            }
            p.asks_base_lots = p.asks_base_lots - qty;
        },
    }
    Ok(())
}

fn record_trade(p: &mut PerpPosition, side: Side, fill: &Event, quote_lot_size: i64) -> (r: Result<(), MangoError>)
    ensures
        match spec_record_trade(*old(p), side, *fill, quote_lot_size as int) {
            Ok(n) => r == Ok::<(), MangoError>(()) && *final(p) == n,
            Err(e) => r == Err::<(), MangoError>(e),
        },
{
    if fill.quantity < 0 {
        return Err(MangoError::MathOverflow);
    }
    let lots = match fill.price.checked_mul(fill.quantity) {
        Some(v) => v,
        None => return Err(MangoError::MathOverflow),
    };
    let native = match quote_lot_size.checked_mul(lots) {
        Some(v) => v,
        None => return Err(MangoError::MathOverflow),
    };
    let base = match p.base_position_lots.checked_add(if side == Side::Bid { fill.quantity } else { -fill.quantity }) {
        Some(v) => v,
        None => return Err(MangoError::MathOverflow),
    };
    let amount = from_int(native);
    assert(-0x8000_0000_0000_0000 * one() <= amount <= 0x7fff_ffff_ffff_ffff * one()) by (nonlinear_arith)
        requires
            amount == native * one(),
            i64::MIN <= native <= i64::MAX,
            one() == 0x1_0000_0000_0000,
    ;
    let delta: i128 = if side == Side::Bid { -amount } else { amount };
    let quote = match checked_add(p.quote_position_native, delta) {
        Some(v) => v,
        None => return Err(MangoError::MathOverflow),
    };
    p.base_position_lots = base;
    p.quote_position_native = quote;
    Ok(())
}

impl MangoAccount {
    /// Removes the order in `slot` of the order table, releasing `quantity`
    /// lots of its side's reservation.
    pub fn remove_perp_order(&mut self, slot: usize, quantity: i64) -> (r: Result<(), MangoError>)
        ensures
            r == unit_result(spec_remove_order(old(self)@, slot as int, quantity as int)),
            r is Ok ==> final(self)@ == spec_remove_order(old(self)@, slot as int, quantity as int)->Ok_0,
    {
        if slot >= self.orders.len() || !self.orders[slot].active {
            return Err(MangoError::InvalidOrderSlot);
        }
        let side = self.orders[slot].side;
        let r = release(&mut self.fixed.position, side, quantity);
        if r.is_err() {
            return r;
        }
        self.orders.set(slot, OpenOrder { side, active: false });
        Ok(())
    }

    /// Applies the maker's side of a fill.
    pub fn execute_perp_maker(&mut self, market: &PerpMarket, fill: &Event) -> (r: Result<(), MangoError>)
        ensures
            r == unit_result(spec_maker(old(self)@, *fill, *market)),
            r is Ok ==> final(self)@ == spec_maker(old(self)@, *fill, *market)->Ok_0,
    {
        let side = fill.taker_side.invert();
        let r = record_trade(&mut self.fixed.position, side, fill, market.quote_lot_size);
        if r.is_err() {
            return r;
        }
        assert(self@ == (MangoAccountFixed { position: self.fixed.position, ..old(self)@.0 }, old(self)@.1));
        if fill.maker_out {
            self.remove_perp_order(fill.maker_slot as usize, fill.quantity)
        } else {
            release(&mut self.fixed.position, side, fill.quantity)
        }
    }

    /// Applies the taker's side of a fill.
    pub fn execute_perp_taker(&mut self, market: &PerpMarket, fill: &Event) -> (r: Result<(), MangoError>)
        ensures
            r == unit_result(spec_taker(old(self)@, *fill, *market)),
            r is Ok ==> final(self)@ == spec_taker(old(self)@, *fill, *market)->Ok_0,
    {
        let side = fill.taker_side;
        let pos = self.fixed.position;
        let r = record_trade(&mut self.fixed.position, side, fill, market.quote_lot_size);
        if r.is_err() {
            return r;
        }
        // record_trade succeeded, so price * quantity fits an i64
        let lots = fill.price * fill.quantity;
        let tb = if side == Side::Bid {
            pos.taker_base_lots.checked_sub(fill.quantity)
        } else {
            pos.taker_base_lots.checked_add(fill.quantity)
        };
        let tq = if side == Side::Bid {
            pos.taker_quote_lots.checked_add(lots)
        } else {
            pos.taker_quote_lots.checked_sub(lots)
        };
        match (tb, tq) {
            (Some(b), Some(q)) => {
                self.fixed.position.taker_base_lots = b;
                self.fixed.position.taker_quote_lots = q;
                Ok(())
            },
            _ => Err(MangoError::MathOverflow),
        }
    }
}

} // verus!
