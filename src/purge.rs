//! Purging a position of a force-closed market against the settlement bank.
use crate::account::{MangoAccount, MangoAccountFixed, PerpMarket, PerpPosition};
use crate::error::MangoError;
use crate::fixed_point::{checked_div, checked_mul, checked_neg, checked_trunc_i64, from_int, in_i128, in_i64, one, product, quotient, trunc};
use vstd::prelude::*;

verus! {

/// The reserve ledger of one token.
#[derive(Clone, Copy, Debug, PartialEq, Eq, Structural)]
pub struct Bank {
    pub token_index: u16,
    /// Native value of one indexed deposit unit (I80F48 bits).
    pub deposit_index: i128,
    /// Native value of one indexed borrow unit (I80F48 bits).
    pub borrow_index: i128,
    /// Sum of the indexed deposits (I80F48 bits).
    pub indexed_deposits: i128,
    /// Sum of the indexed borrows (I80F48 bits).
    pub indexed_borrows: i128,
}

/// Withdraws `amount` native units from `indexed_position`, charging no fee:
/// `(bank, indexed position)` after it. A deposit is drawn down at the
/// deposit index; what it does not cover becomes a borrow at the borrow index.
pub open spec fn spec_withdraw(bank: Bank, indexed_position: i128, amount: i64) -> Result<(Bank, i128), MangoError> {
    let amt = amount * one();
    let pos = indexed_position as int;
    if pos > 0 {
        let native = product(pos, bank.deposit_index as int);
        if !in_i128(native) {
            Err(MangoError::MathOverflow)
        } else if native >= amt {
            let d = quotient(amt, bank.deposit_index as int);
            if bank.deposit_index == 0 || !in_i128(d) || !in_i128(pos - d) || !in_i128(bank.indexed_deposits - d) {
                Err(MangoError::MathOverflow)
            } else {
                Ok((Bank { indexed_deposits: (bank.indexed_deposits - d) as i128, ..bank }, (pos - d) as i128))
            }
        } else {
            let b = quotient(amt - native, bank.borrow_index as int);
            if !in_i128(amt - native) || bank.borrow_index == 0 || !in_i128(b) || !in_i128(-b)
                || !in_i128(bank.indexed_deposits - pos) || !in_i128(bank.indexed_borrows + b) {
                Err(MangoError::MathOverflow)
            } else {
                Ok((
                    Bank {
                        indexed_deposits: (bank.indexed_deposits - pos) as i128,
                        indexed_borrows: (bank.indexed_borrows + b) as i128,
                        ..bank
                    },
                    (-b) as i128,
                ))
            }
        }
    } else {
        let d = quotient(amt, bank.borrow_index as int);
        if bank.borrow_index == 0 || !in_i128(d) || !in_i128(pos - d) || !in_i128(bank.indexed_borrows + d) {
            Err(MangoError::MathOverflow)
        } else {
            Ok((Bank { indexed_borrows: (bank.indexed_borrows + d) as i128, ..bank }, (pos - d) as i128))
        }
    }
}

impl Bank {
    /// Withdraws `amount` native units from an indexed token position without
    /// a withdrawal fee. An overflow is an error and changes nothing.
    pub fn withdraw_without_fee(&mut self, indexed_position: &mut i128, amount: i64) -> (r: Result<(), MangoError>)
        ensures
            match spec_withdraw(*old(self), *old(indexed_position), amount) {
                Ok((b, p)) => r is Ok && *final(self) == b && *final(indexed_position) == p,
                Err(e) => r == Err::<(), MangoError>(e) && *final(self) == *old(self)
                    && *final(indexed_position) == *old(indexed_position),
            },
    {
        let amt = from_int(amount);
        let pos = *indexed_position;
        if pos > 0 {
            let native = match checked_mul(pos, self.deposit_index) {
                None => return Err(MangoError::MathOverflow),
                Some(n) => n,
            };
            if native >= amt {
                let d = match checked_div(amt, self.deposit_index) {
                    None => return Err(MangoError::MathOverflow),
                    Some(d) => d,
                };
                let new_pos = match pos.checked_sub(d) {
                    None => return Err(MangoError::MathOverflow),
                    Some(v) => v,
                };
                let deposits = match self.indexed_deposits.checked_sub(d) {
                    None => return Err(MangoError::MathOverflow),
                    Some(v) => v,
                };
                self.indexed_deposits = deposits;
                *indexed_position = new_pos;
            } else {
                let rest = match amt.checked_sub(native) {
                    None => return Err(MangoError::MathOverflow),
                    Some(v) => v,
                };
                let b = match checked_div(rest, self.borrow_index) {
                    None => return Err(MangoError::MathOverflow),
                    Some(b) => b,
                };
                let new_pos = match checked_neg(b) {
                    None => return Err(MangoError::MathOverflow),
                    Some(v) => v,
                };
                let deposits = match self.indexed_deposits.checked_sub(pos) {
                    None => return Err(MangoError::MathOverflow),
                    Some(v) => v,
                };
                let borrows = match self.indexed_borrows.checked_add(b) {
                    None => return Err(MangoError::MathOverflow),
                    Some(v) => v,
                };
                self.indexed_deposits = deposits;
                self.indexed_borrows = borrows;
                *indexed_position = new_pos;
            }
        } else {
            let d = match checked_div(amt, self.borrow_index) {
                None => return Err(MangoError::MathOverflow),
                Some(d) => d,
            };
            let new_pos = match pos.checked_sub(d) {
                None => return Err(MangoError::MathOverflow),
                Some(v) => v,
            };
            let borrows = match self.indexed_borrows.checked_add(d) {
                None => return Err(MangoError::MathOverflow),
                Some(v) => v,
            };
            self.indexed_borrows = borrows;
            *indexed_position = new_pos;
        }
        Ok(())
    }
}

/// Checks that stand before any settlement; `Ok(())` when all hold.
pub open spec fn purge_gate(market: PerpMarket, bank: Bank, f: MangoAccountFixed) -> Result<(), MangoError> {
    let p = f.position;
    if !market.force_close {
        Err(MangoError::NotForceClosed)
    } else if bank.token_index != market.settle_token_index {
        Err(MangoError::InvalidBank)
    } else if !f.position_active || p.market_index != market.perp_market_index {
        Err(MangoError::PositionInactive)
    } else if p.base_position_lots != 0 {
        Err(MangoError::BaseLotsRemain)
    } else if p.bids_base_lots != 0 || p.asks_base_lots != 0 {
        Err(MangoError::OpenOrdersRemain)
    } else if p.taker_base_lots != 0 || p.taker_quote_lots != 0 {
        Err(MangoError::PendingEventsRemain)
    } else if p.quote_position_native == i128::MIN {
        Err(MangoError::MathOverflow)
    } else if -p.quote_position_native > 0 && !in_i64(trunc(-p.quote_position_native)) {
        Err(MangoError::MathOverflow)
    } else if -p.quote_position_native > 0 && !in_i64(p.perp_spot_transfers + trunc(-p.quote_position_native)) {
        Err(MangoError::MathOverflow)
    } else if -p.quote_position_native > 0 && !in_i64(f.perp_spot_transfers + trunc(-p.quote_position_native)) {
        Err(MangoError::MathOverflow)
    } else if -p.quote_position_native < 0 {
        Err(MangoError::PositiveSettlement)
    } else {
        Ok(())
    }
}

/// The settlement owed by a position: minus its quote balance (I80F48 bits).
pub open spec fn settlement(p: PerpPosition) -> int {
    -p.quote_position_native
}

/// The account after a purge whose settlement went through: quote balance
/// zero, transfers counted, funding settled, position deactivated; the token
/// position is the one the bank handed back.
pub open spec fn purged(f: MangoAccountFixed, market: PerpMarket, token_position: i128) -> MangoAccountFixed {
    let amount = trunc(settlement(f.position));
    MangoAccountFixed {
        position: PerpPosition {
            quote_position_native: 0,
            long_settled_funding: market.long_funding,
            short_settled_funding: market.short_funding,
            perp_spot_transfers: (f.position.perp_spot_transfers + amount) as i64,
            ..f.position
        },
        perp_spot_transfers: (f.perp_spot_transfers + amount) as i64,
        position_active: false,
        token_indexed_position: token_position,
        ..f
    }
}

/// The settlement of a negative balance against the bank: the account must
/// hold a position in the settlement token, from which the truncated
/// settlement is withdrawn. `(bank, token position)` after it.
pub open spec fn spec_settle(market: PerpMarket, bank: Bank, f: MangoAccountFixed) -> Result<(Bank, i128), MangoError> {
    if f.token_index != market.settle_token_index {
        Err(MangoError::NoSettlementTokenPosition)
    } else {
        spec_withdraw(bank, f.token_indexed_position, trunc(settlement(f.position)) as i64)
    }
}

/// One purge: `(bank, account)` after it.
pub open spec fn spec_purge(market: PerpMarket, bank: Bank, f: MangoAccountFixed) -> Result<(Bank, MangoAccountFixed), MangoError> {
    match purge_gate(market, bank, f) {
        Err(e) => Err(e),
        Ok(()) => if settlement(f.position) == 0 {
            Ok((bank, purged(f, market, f.token_indexed_position)))
        } else {
            match spec_settle(market, bank, f) {
                Err(e) => Err(e),
                Ok((b, t)) => Ok((b, purged(f, market, t))),
            }
        },
    }
}

/// Zeroes out a position of a force-closed market: every lot counter must be
/// zero and the remaining quote balance non-positive; a negative balance is
/// settled by withdrawing its integer part, truncated toward zero, from the
/// account's position in the settlement bank. On an error neither the bank
/// nor the account change.
pub fn perp_purge_position(market: &PerpMarket, bank: &mut Bank, account: &mut MangoAccount) -> (r: Result<(), MangoError>)
    ensures
        match spec_purge(*market, *old(bank), old(account).fixed) {
            Ok((b, f)) => r is Ok && *final(bank) == b && final(account).fixed == f
                && final(account).orders@ == old(account).orders@,
            Err(e) => r == Err::<(), MangoError>(e) && *final(bank) == *old(bank) && *final(account) == *old(account),
        },
{
    if !market.force_close {
        return Err(MangoError::NotForceClosed);
    }
    if bank.token_index != market.settle_token_index {
        return Err(MangoError::InvalidBank);
    }
    let mut f = account.fixed;
    if !f.position_active || f.position.market_index != market.perp_market_index {
        return Err(MangoError::PositionInactive);
    }
    if f.position.base_position_lots != 0 {
        return Err(MangoError::BaseLotsRemain);
    }
    if f.position.bids_base_lots != 0 || f.position.asks_base_lots != 0 {
        return Err(MangoError::OpenOrdersRemain);
    }
    if f.position.taker_base_lots != 0 || f.position.taker_quote_lots != 0 {
        return Err(MangoError::PendingEventsRemain);
    }
    // with no base lots the funding accrual is zero: only the markers move
    f.position.long_settled_funding = market.long_funding;
    f.position.short_settled_funding = market.short_funding;
    let settle = match checked_neg(f.position.quote_position_native) {
        None => return Err(MangoError::MathOverflow),
        Some(s) => s,
    };
    let mut b = *bank;
    if settle != 0 {
        let amount = if settle > 0 {
            match checked_trunc_i64(settle) {
                None => return Err(MangoError::MathOverflow),
                Some(a) => a,
            }
        } else {
            0
        };
        let pos_transfers = if settle > 0 { f.position.perp_spot_transfers.checked_add(amount) } else { Some(0) };
        let acc_transfers = if settle > 0 { f.perp_spot_transfers.checked_add(amount) } else { Some(0) };
        let (pt, at) = match (pos_transfers, acc_transfers) {
            (Some(x), Some(y)) => (x, y),
            _ => return Err(MangoError::MathOverflow),
        };
        if settle < 0 {
            return Err(MangoError::PositiveSettlement);
        }
        if f.token_index != market.settle_token_index {
            return Err(MangoError::NoSettlementTokenPosition);
        }
        f.position.quote_position_native = 0;
        f.position.perp_spot_transfers = pt;
        f.perp_spot_transfers = at;
        let mut token = f.token_indexed_position;
        match b.withdraw_without_fee(&mut token, amount) {
            Err(e) => return Err(e),
            Ok(()) => {},
        }
        f.token_indexed_position = token;
    } else {
        f.position.quote_position_native = 0;
    }
    f.position_active = false;
    *bank = b;
    account.fixed = f;
    Ok(())
}

} // verus!
