//! The order book and the pruning of an account's resting orders.
use crate::account::{spec_remove_order, AccountModel, MangoAccount, PerpMarket};
use crate::consume::duplicate_account;
use crate::error::MangoError;
use crate::event::AccountKey;
use vstd::prelude::*;

verus! {

/// A resting order.
#[derive(Clone, Copy, Debug, PartialEq, Eq, Structural)]
pub struct Order {
    pub id: u64,
    pub price: i64,
    pub quantity: i64,
    pub owner: AccountKey,
    /// Slot of the order in its owner's order table.
    pub owner_slot: u8,
}

/// One side of the book, in price order.
#[derive(Clone, Debug)]
pub struct BookSide {
    pub orders: Vec<Order>,
}

#[derive(Clone, Debug)]
pub struct Orderbook {
    pub bids: BookSide,
    pub asks: BookSide,
}

/// Cancels the orders of `key` on one side, front to back, while the budget
/// lasts: `(kept orders, account, orders cancelled)`.
pub open spec fn spec_cancel_side(orders: Seq<Order>, key: AccountKey, a: AccountModel, budget: nat) -> Result<(Seq<Order>, AccountModel, nat), MangoError>
    decreases orders.len(),
{
    if orders.len() == 0 {
        Ok((Seq::<Order>::empty(), a, 0))
    } else if budget > 0 && orders[0].owner == key {
        match spec_remove_order(a, orders[0].owner_slot as int, orders[0].quantity as int) {
            Err(e) => Err(e),
            Ok(a1) => match spec_cancel_side(orders.drop_first(), key, a1, (budget - 1) as nat) {
                Ok((k, a2, n)) => Ok((k, a2, n + 1)),
                Err(e) => Err(e),
            },
        }
    } else {
        match spec_cancel_side(orders.drop_first(), key, a, budget) {
            Ok((k, a2, n)) => Ok((seq![orders[0]] + k, a2, n)),
            Err(e) => Err(e),
        }
    }
}

pub open spec fn joined(r: Result<(Seq<Order>, AccountModel, nat), MangoError>, kept: Seq<Order>, used: nat) -> Result<(Seq<Order>, AccountModel, nat), MangoError> {
    match r {
        Ok((k, a, n)) => Ok((kept + k, a, n + used)),
        Err(e) => Err(e),
    }
}

/// Pruning: bids first, then asks, at most `limit` orders in all:
/// `(bids, asks, account)` after it.
pub open spec fn spec_prune(market: PerpMarket, bids: Seq<Order>, asks: Seq<Order>, a: AccountModel, limit: nat) -> Result<(Seq<Order>, Seq<Order>, AccountModel), MangoError> {
    if !market.force_close {
        Err(MangoError::NotForceClosed)
    } else {
        match spec_cancel_side(bids, a.0.key, a, limit) {
            Err(e) => Err(e),
            Ok((b, a1, n)) => match spec_cancel_side(asks, a.0.key, a1, (limit - n) as nat) {
                Err(e) => Err(e),
                Ok((s, a2, _)) => Ok((b, s, a2)),
            },
        }
    }
}

fn cancel_side(side: &BookSide, account: &mut MangoAccount, budget: usize) -> (r: Result<(Vec<Order>, usize), MangoError>)
    ensures
        match spec_cancel_side(side.orders@, old(account)@.0.key, old(account)@, budget as nat) {
            Ok((k, a, n)) => r matches Ok((kept, used)) && kept@ == k && used == n && n <= budget
                && final(account)@ == a,
            Err(e) => r matches Err(e2) && e2 == e,
        },
        r is Ok ==> final(account)@.0.key == old(account)@.0.key,
{
    let key = account.fixed.key;
    let ghost a0 = account@;
    let mut kept: Vec<Order> = Vec::new();
    let mut used: usize = 0;
    let mut i: usize = 0;
    assert(side.orders@.skip(0) =~= side.orders@);
    proof {
        match spec_cancel_side(side.orders@, key, a0, budget as nat) {
            Ok((k, _, _)) => assert(Seq::<Order>::empty() + k =~= k),
            Err(_) => {},
        }
    }
    while i < side.orders.len()
        invariant
            i <= side.orders@.len(),
            used <= budget,
            account@.0.key == key,
            key == a0.0.key,
            a0 == old(account)@,
            spec_cancel_side(side.orders@, key, a0, budget as nat) == joined(
                spec_cancel_side(side.orders@.skip(i as int), key, account@, (budget - used) as nat),
                kept@,
                used as nat,
            ),
        decreases side.orders@.len() - i,
    {
        let o = side.orders[i];
        let ghost rest = side.orders@.skip(i as int);
        let ghost acc = account@;
        let ghost kb = kept@;
        assert(rest.drop_first() == side.orders@.skip(i + 1 as int)) by {
            assert(rest.drop_first() =~= side.orders@.skip(i + 1 as int));
        }
        assert(rest.len() > 0 && rest[0] == o);
        if used < budget && o.owner.same_as(&key) {
            match account.remove_perp_order(o.owner_slot as usize, o.quantity) {
                Err(e) => {
                    assert(spec_remove_order(acc, o.owner_slot as int, o.quantity as int) == Err::<AccountModel, MangoError>(e));
                    assert(spec_cancel_side(rest, key, acc, (budget - used) as nat) == Err::<(Seq<Order>, AccountModel, nat), MangoError>(e));
                    return Err(e);
                },
                Ok(()) => {},
            }
            used = used + 1;
        } else {
            kept.push(o);
            assert(forall|k: Seq<Order>| #![auto] kb + (seq![o] + k) == kept@ + k) by {
                assert forall|k: Seq<Order>| #![auto] kb + (seq![o] + k) == kept@ + k by {
                    assert(kb + (seq![o] + k) =~= kept@ + k);
                }
            }
        }
        i = i + 1;
    }
    assert(side.orders@.skip(i as int) =~= Seq::<Order>::empty());
    assert(kept@ + Seq::<Order>::empty() =~= kept@);
    Ok((kept, used))
}

/// Cancels up to `limit` resting orders of `account` (bids first, then asks)
/// and releases their reserved lots. Only allowed when the market is in
/// force-close. On an error neither the book nor the account change.
pub fn perp_prune_orders(market: &PerpMarket, book: &mut Orderbook, account: &mut MangoAccount, limit: u8) -> (r: Result<(), MangoError>)
    ensures
        match spec_prune(*market, old(book).bids.orders@, old(book).asks.orders@, old(account)@, limit as nat) {
            Ok((b, s, a)) => r is Ok && final(book).bids.orders@ == b && final(book).asks.orders@ == s
                && final(account)@ == a,
            Err(e) => r == Err::<(), MangoError>(e) && *final(book) == *old(book) && *final(account) == *old(account),
        },
{
    if !market.force_close {
        return Err(MangoError::NotForceClosed);
    }
    let mut a = duplicate_account(account);
    let (bids, used) = match cancel_side(&book.bids, &mut a, limit as usize) {
        Err(e) => return Err(e),
        Ok(x) => x,
    };
    let (asks, _) = match cancel_side(&book.asks, &mut a, limit as usize - used) {
        Err(e) => return Err(e),
        Ok(x) => x,
    };
    book.bids = BookSide { orders: bids };
    book.asks = BookSide { orders: asks };
    *account = a;
    Ok(())
}

} // verus!
