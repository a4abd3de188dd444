//! Properties of the settlement operations, proved over their specifications.
use crate::account::{base_change, reserved, spec_maker, spec_record_trade, spec_remove_order, spec_taker, AccountModel, PerpMarket};
use crate::consume::{spec_consume, spec_drain, spec_lookup, spec_process_event, spec_scan, Lookup};
use crate::error::MangoError;
use crate::event::{AccountKey, Event, Side, TAG_OUT};
use crate::fixed_point::one;
use crate::purge::{purge_gate, purged, spec_purge, Bank};
use crate::account::MangoAccountFixed;
use vstd::prelude::*;

verus! {

proof fn lemma_drain_processed(live: Seq<Event>, l: Seq<AccountModel>, market: PerpMarket, testing: bool, budget: nat)
    requires
        forall|i: int| 0 <= i < live.len() ==> #[trigger] live[i].is_processed(),
    ensures
        budget > 0 ==> spec_drain(live, l, market, testing, budget) == Ok::<(nat, nat, Seq<AccountModel>), MangoError>((live.len(), 0, l)),
    decreases live.len(),
{
    if live.len() > 0 {
        assert(live[0].is_processed());
        assert forall|i: int| 0 <= i < live.drop_first().len() implies #[trigger] live.drop_first()[i].is_processed() by {
            assert(live[i + 1].is_processed());
        }
        lemma_drain_processed(live.drop_first(), l, market, testing, budget);
    }
}

proof fn lemma_drain_keeps_len(live: Seq<Event>, l: Seq<AccountModel>, market: PerpMarket, testing: bool, budget: nat)
    ensures
        spec_drain(live, l, market, testing, budget) matches Ok((p, n, l2)) ==> p <= live.len() && l2.len() == l.len(),
    decreases live.len(),
{
    reveal(spec_process_event);
    if budget > 0 && live.len() > 0 {
        if live[0].is_processed() {
            lemma_drain_keeps_len(live.drop_first(), l, market, testing, budget);
        } else {
            match spec_process_event(l, live[0], market, testing) {
                Ok(Some(l1)) => lemma_drain_keeps_len(live.drop_first(), l1, market, testing, (budget - 1) as nat),
                _ => {},
            }
        }
    }
}

proof fn lemma_scan_keeps(live: Seq<Event>, i: int, key: AccountKey, a: AccountModel, budget: nat)
    requires
        0 <= i,
    ensures
        spec_scan(live, i, key, a, budget) matches Ok((live2, a2)) ==> live2.len() == live.len()
            && a2.0.owned_by_program == a.0.owned_by_program,
    decreases live.len() - i,
{
    if i < live.len() && budget > 0 {
        if !(live[i].is_out() && live[i].owner == key) {
            lemma_scan_keeps(live, i + 1, key, a, budget);
        } else {
            match spec_remove_order(a, live[i].owner_slot as int, live[i].quantity as int) {
                Ok(a1) => lemma_scan_keeps(live.update(i, live[i].marked()), i + 1, key, a1, (budget - 1) as nat),
                Err(_) => {},
            }
        }
    }
}

/// The number of live events not yet consumed.
pub open spec fn unconsumed(s: Seq<Event>) -> nat
    decreases s.len(),
{
    if s.len() == 0 {
        0
    } else {
        (if s[0].is_processed() {
            0nat
        } else {
            1nat
        }) + unconsumed(s.drop_first())
    }
}

proof fn lemma_unconsumed_skip(s: Seq<Event>, p: int)
    requires
        0 <= p <= s.len(),
    ensures
        unconsumed(s.skip(p)) <= unconsumed(s),
    decreases p,
{
    if p > 0 {
        lemma_unconsumed_skip(s.drop_first(), p - 1);
        assert(s.drop_first().skip(p - 1) =~= s.skip(p));
    } else {
        assert(s.skip(0) =~= s);
    }
}

proof fn lemma_unconsumed_mark(s: Seq<Event>, i: int)
    requires
        0 <= i < s.len(),
    ensures
        unconsumed(s.update(i, s[i].marked())) <= unconsumed(s),
    decreases s.len(),
{
    let t = s.update(i, s[i].marked());
    if i == 0 {
        assert(t.drop_first() =~= s.drop_first());
    } else {
        let d = s.drop_first();
        assert(t.drop_first() =~= d.update(i - 1, d[i - 1].marked()));
        lemma_unconsumed_mark(d, i - 1);
    }
}

proof fn lemma_scan_unconsumed(live: Seq<Event>, i: int, key: AccountKey, a: AccountModel, budget: nat)
    requires
        0 <= i,
    ensures
        spec_scan(live, i, key, a, budget) matches Ok((live2, _)) ==> unconsumed(live2) <= unconsumed(live),
    decreases live.len() - i,
{
    if i < live.len() && budget > 0 {
        if !(live[i].is_out() && live[i].owner == key) {
            lemma_scan_unconsumed(live, i + 1, key, a, budget);
        } else {
            match spec_remove_order(a, live[i].owner_slot as int, live[i].quantity as int) {
                Ok(a1) => {
                    lemma_unconsumed_mark(live, i);
                    lemma_scan_unconsumed(live.update(i, live[i].marked()), i + 1, key, a1, (budget - 1) as nat);
                },
                Err(_) => {},
            }
        }
    }
}

/// A call never raises the number of unconsumed events on the queue.
pub proof fn lemma_consume_unconsumed_nonincreasing(live: Seq<Event>, l: Seq<AccountModel>, market: PerpMarket, testing: bool, limit: nat)
    requires
        spec_consume(live, l, market, testing, limit) is Ok,
    ensures
        unconsumed(spec_consume(live, l, market, testing, limit)->Ok_0.0) <= unconsumed(live),
{
    let lim = crate::consume::capped(limit);
    lemma_drain_keeps_len(live, l, market, testing, lim);
    let (p, n, l1) = spec_drain(live, l, market, testing, lim)->Ok_0;
    lemma_unconsumed_skip(live, p as int);
    lemma_scan_unconsumed(live.skip(p as int), 0, l1[0].0.key, l1[0], (lim - n) as nat);
}

/// No reserved lot counter of the account is negative.
pub open spec fn reserves_ok(a: AccountModel) -> bool {
    a.0.position.bids_base_lots >= 0 && a.0.position.asks_base_lots >= 0
}

pub open spec fn ledger_reserves_ok(l: Seq<AccountModel>) -> bool {
    forall|i: int| 0 <= i < l.len() ==> #[trigger] reserves_ok(l[i])
}

proof fn lemma_remove_keeps_reserves(a: AccountModel, slot: int, qty: int)
    requires
        reserves_ok(a),
    ensures
        spec_remove_order(a, slot, qty) matches Ok(a1) ==> reserves_ok(a1),
{
}

proof fn lemma_process_keeps_reserves(l: Seq<AccountModel>, ev: Event, market: PerpMarket, testing: bool)
    requires
        ledger_reserves_ok(l),
    ensures
        spec_process_event(l, ev, market, testing) matches Ok(Some(l1)) ==> ledger_reserves_ok(l1),
{
    reveal(spec_process_event);
    match spec_lookup(l, ev.owner, testing) {
        Lookup::Found(i) => {
            if 0 <= i < l.len() {
                assert(reserves_ok(l[i as int]));
                lemma_remove_keeps_reserves(l[i as int], ev.owner_slot as int, ev.quantity as int);
            }
        },
        _ => {},
    }
    match spec_lookup(l, ev.maker, testing) {
        Lookup::Found(i) => {
            if 0 <= i < l.len() {
                assert(reserves_ok(l[i as int]));
                match spec_maker(l[i as int], ev, market) {
                    Ok(a1) => {
                        lemma_remove_keeps_reserves(
                            (MangoAccountFixed { position: spec_record_trade(l[i as int].0.position, ev.taker_side.spec_invert(), ev, market.quote_lot_size as int)->Ok_0, ..l[i as int].0 }, l[i as int].1),
                            ev.maker_slot as int,
                            ev.quantity as int,
                        );
                    },
                    Err(_) => {},
                }
            }
        },
        _ => {},
    }
    match spec_lookup(l, ev.taker, testing) {
        Lookup::Found(j) => {
            if 0 <= j < l.len() {
                assert(reserves_ok(l[j as int]));
            }
        },
        _ => {},
    }
}

proof fn lemma_drain_keeps_reserves(live: Seq<Event>, l: Seq<AccountModel>, market: PerpMarket, testing: bool, budget: nat)
    requires
        ledger_reserves_ok(l),
    ensures
        spec_drain(live, l, market, testing, budget) matches Ok((_, _, l2)) ==> ledger_reserves_ok(l2),
    decreases live.len(),
{
    if budget > 0 && live.len() > 0 {
        if live[0].is_processed() {
            lemma_drain_keeps_reserves(live.drop_first(), l, market, testing, budget);
        } else {
            lemma_process_keeps_reserves(l, live[0], market, testing);
            match spec_process_event(l, live[0], market, testing) {
                Ok(Some(l1)) => lemma_drain_keeps_reserves(live.drop_first(), l1, market, testing, (budget - 1) as nat),
                _ => {},
            }
        }
    }
}

proof fn lemma_scan_keeps_reserves(live: Seq<Event>, i: int, key: AccountKey, a: AccountModel, budget: nat)
    requires
        0 <= i,
        reserves_ok(a),
    ensures
        spec_scan(live, i, key, a, budget) matches Ok((_, a2)) ==> reserves_ok(a2),
    decreases live.len() - i,
{
    if i < live.len() && budget > 0 {
        if !(live[i].is_out() && live[i].owner == key) {
            lemma_scan_keeps_reserves(live, i + 1, key, a, budget);
        } else {
            lemma_remove_keeps_reserves(a, live[i].owner_slot as int, live[i].quantity as int);
            match spec_remove_order(a, live[i].owner_slot as int, live[i].quantity as int) {
                Ok(a1) => lemma_scan_keeps_reserves(live.update(i, live[i].marked()), i + 1, key, a1, (budget - 1) as nat),
                Err(_) => {},
            }
        }
    }
}

/// A call that succeeds leaves no reserved lot counter negative: an event
/// that would take one below zero fails the call instead.
pub proof fn lemma_consume_keeps_reserves(live: Seq<Event>, l: Seq<AccountModel>, market: PerpMarket, testing: bool, limit: nat)
    requires
        ledger_reserves_ok(l),
        spec_consume(live, l, market, testing, limit) is Ok,
    ensures
        ledger_reserves_ok(spec_consume(live, l, market, testing, limit)->Ok_0.1),
{
    let lim = crate::consume::capped(limit);
    lemma_drain_keeps_len(live, l, market, testing, lim);
    lemma_drain_keeps_reserves(live, l, market, testing, lim);
    let (p, n, l1) = spec_drain(live, l, market, testing, lim)->Ok_0;
    assert(reserves_ok(l1[0]));
    lemma_scan_keeps_reserves(live.skip(p as int), 0, l1[0].0.key, l1[0], (lim - n) as nat);
    let l2 = spec_consume(live, l, market, testing, limit)->Ok_0.1;
    assert forall|i: int| 0 <= i < l2.len() implies #[trigger] reserves_ok(l2[i]) by {
        if i != 0 {
            assert(reserves_ok(l1[i]));
        }
    }
}

/// Once a call has consumed every event it was given, a second call on the
/// queue and accounts it left changes no account and only drops the
/// consumed events: no event is applied twice.
pub proof fn lemma_consume_idempotent(live: Seq<Event>, l: Seq<AccountModel>, market: PerpMarket, testing: bool, limit: nat, limit2: nat)
    requires
        limit2 > 0,
        spec_consume(live, l, market, testing, limit) is Ok,
        forall|i: int| 0 <= i < spec_consume(live, l, market, testing, limit)->Ok_0.0.len()
            ==> #[trigger] spec_consume(live, l, market, testing, limit)->Ok_0.0[i].is_processed(),
    ensures
        ({
            let (live2, l2) = spec_consume(live, l, market, testing, limit)->Ok_0;
            spec_consume(live2, l2, market, testing, limit2) == Ok::<(Seq<Event>, Seq<AccountModel>), MangoError>((Seq::<Event>::empty(), l2))
        }),
{
    let (live2, l2) = spec_consume(live, l, market, testing, limit)->Ok_0;
    let lim = crate::consume::capped(limit);
    lemma_drain_keeps_len(live, l, market, testing, lim);
    let (p, n, l1) = spec_drain(live, l, market, testing, lim)->Ok_0;
    lemma_scan_keeps(live.skip(p as int), 0, l1[0].0.key, l1[0], (lim - n) as nat);
    assert(l2.len() == l.len() && l2.len() > 0);
    assert(l2[0].0.owned_by_program);
    let lim2 = crate::consume::capped(limit2);
    lemma_drain_processed(live2, l2, market, testing, lim2);
    assert(live2.skip(live2.len() as int) =~= Seq::<Event>::empty());
    assert(l2.update(0, l2[0]) =~= l2);
}

/// A call never lengthens the queue, and it consumes at least the head event
/// when that event is already consumed or can be applied.
pub proof fn lemma_consume_drains(live: Seq<Event>, l: Seq<AccountModel>, market: PerpMarket, testing: bool, limit: nat)
    requires
        spec_consume(live, l, market, testing, limit) is Ok,
    ensures
        spec_consume(live, l, market, testing, limit)->Ok_0.0.len() <= live.len(),
        limit > 0 && live.len() > 0 && (live[0].is_processed() || spec_process_event(l, live[0], market, testing) is Ok
            && spec_process_event(l, live[0], market, testing)->Ok_0 is Some)
            ==> spec_consume(live, l, market, testing, limit)->Ok_0.0.len() < live.len(),
{
    let lim = crate::consume::capped(limit);
    lemma_drain_keeps_len(live, l, market, testing, lim);
    let (p, n, l1) = spec_drain(live, l, market, testing, lim)->Ok_0;
    lemma_scan_keeps(live.skip(p as int), 0, l1[0].0.key, l1[0], (lim - n) as nat);
}

/// An out event that releases more lots than its order's side has reserved
/// fails the whole call.
pub proof fn lemma_out_underflow_rejected(live: Seq<Event>, l: Seq<AccountModel>, market: PerpMarket, testing: bool, limit: nat)
    requires
        limit > 0,
        l.len() > 0,
        live.len() > 0,
        live[0].event_type == TAG_OUT,
        spec_lookup(l, live[0].owner, testing) matches Lookup::Found(i) && 0 <= live[0].owner_slot < l[i as int].1.len()
            && l[i as int].1[live[0].owner_slot as int].active
            && live[0].quantity > reserved(l[i as int].0.position, l[i as int].1[live[0].owner_slot as int].side),
    ensures
        spec_consume(live, l, market, testing, limit) == Err::<(Seq<Event>, Seq<AccountModel>), MangoError>(MangoError::ReservedLotsUnderflow),
{
    reveal(spec_process_event);
}

/// For a fill between two accounts, the base lots the taker gains the maker
/// loses, and the quote balances move by the same amount, price times
/// quantity in quote lots, in opposite directions.
pub proof fn lemma_fill_conserves(maker: AccountModel, taker: AccountModel, fill: Event, market: PerpMarket)
    requires
        spec_maker(maker, fill, market) is Ok,
        spec_taker(taker, fill, market) is Ok,
    ensures
        ({
            let m = spec_maker(maker, fill, market)->Ok_0.0.position;
            let t = spec_taker(taker, fill, market)->Ok_0.0.position;
            &&& (m.base_position_lots - maker.0.position.base_position_lots) + (t.base_position_lots
                - taker.0.position.base_position_lots) == 0
            &&& t.base_position_lots - taker.0.position.base_position_lots == base_change(fill.taker_side, fill.quantity as int)
            &&& (m.quote_position_native - maker.0.position.quote_position_native) + (t.quote_position_native
                - taker.0.position.quote_position_native) == 0
            &&& t.quote_position_native - taker.0.position.quote_position_native == (match fill.taker_side {
                Side::Bid => -(market.quote_lot_size * (fill.price * fill.quantity)),
                Side::Ask => market.quote_lot_size * (fill.price * fill.quantity),
            }) * one()
        }),
{
    let x = market.quote_lot_size * (fill.price * fill.quantity);
    assert((-x) * one() + x * one() == 0) by (nonlinear_arith);
}

/// A position with base lots, resting orders or pending own events cannot be
/// purged.
pub proof fn lemma_purge_needs_flat_position(market: PerpMarket, bank: Bank, f: MangoAccountFixed)
    requires
        f.position.base_position_lots != 0 || f.position.bids_base_lots != 0 || f.position.asks_base_lots != 0
            || f.position.taker_base_lots != 0 || f.position.taker_quote_lots != 0,
    ensures
        purge_gate(market, bank, f) is Err,
{
}

/// A position with a positive quote balance (a settlement owed to it) cannot
/// be purged.
pub proof fn lemma_purge_rejects_credit(market: PerpMarket, bank: Bank, f: MangoAccountFixed)
    requires
        f.position.quote_position_native > 0,
    ensures
        purge_gate(market, bank, f) is Err,
{
}

/// A position that passes every check and has a zero quote balance is
/// purged, whatever token the account holds.
pub proof fn lemma_purge_flat_zero_succeeds(market: PerpMarket, bank: Bank, f: MangoAccountFixed)
    requires
        market.force_close,
        bank.token_index == market.settle_token_index,
        f.position_active,
        f.position.market_index == market.perp_market_index,
        f.position.base_position_lots == 0,
        f.position.bids_base_lots == 0,
        f.position.asks_base_lots == 0,
        f.position.taker_base_lots == 0,
        f.position.taker_quote_lots == 0,
        f.position.quote_position_native == 0,
    ensures
        spec_purge(market, bank, f) == Ok::<(Bank, MangoAccountFixed), MangoError>((bank, purged(f, market, f.token_indexed_position))),
{
}

} // verus!
