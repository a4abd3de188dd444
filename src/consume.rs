//! Draining the event queue into the accounts' positions.
use crate::account::{spec_maker, spec_remove_order, spec_taker, AccountModel, MangoAccount, OpenOrder, PerpMarket};
use crate::error::MangoError;
use crate::event::{spec_event_type, AccountKey, Event, EventType, TAG_ALREADY_PROCESSED, TAG_OUT};
use crate::queue::EventQueue;
use vstd::prelude::*;

verus! {

/// Most events consumed by one call, whatever the caller asks for.
pub const MAX_EVENTS_PER_CALL: usize = 8;

/// Group-wide configuration.
#[derive(Clone, Copy, Debug, PartialEq, Eq, Structural)]
pub struct Group {
    /// Relaxed mode: events of accounts that the program does not own are skipped.
    pub testing: bool,
}

/// The accounts as mathematical values.
pub open spec fn ledger(v: Seq<MangoAccount>) -> Seq<AccountModel> {
    Seq::new(v.len(), |i: int| v[i]@)
}

/// `i` is the first position of the ledger that holds `key`.
pub open spec fn is_first_with_key(l: Seq<AccountModel>, key: AccountKey, i: int) -> bool {
    &&& 0 <= i < l.len()
    &&& l[i].0.key == key
    &&& forall|j: int| 0 <= j < i ==> l[j].0.key != key
}

/// How an account referenced by an event resolves.
#[derive(Clone, Copy, Debug, PartialEq, Eq, Structural)]
pub enum Lookup {
    /// Present at this position.
    Found(usize),
    /// Not among the supplied accounts: draining stops here.
    Missing,
    /// Not owned by the program, in relaxed mode: the event counts as processed.
    Skip,
    /// Not owned by the program.
    NotOwned,
}

pub open spec fn spec_lookup(l: Seq<AccountModel>, key: AccountKey, testing: bool) -> Lookup {
    if exists|i: int| is_first_with_key(l, key, i) {
        let i = choose|i: int| is_first_with_key(l, key, i);
        if l[i].0.owned_by_program {
            Lookup::Found(i as usize)
        } else if testing {
            Lookup::Skip
        } else {
            Lookup::NotOwned
        }
    } else {
        Lookup::Missing
    }
}

/// Applies one live event to the ledger: `Ok(None)` where a referenced account
/// is missing, `Ok(Some(l))` with the new ledger where the event is consumed.
#[verifier::opaque]
pub open spec fn spec_process_event(l: Seq<AccountModel>, ev: Event, market: PerpMarket, testing: bool) -> Result<Option<Seq<AccountModel>>, MangoError> {
    match spec_event_type(ev.event_type) {
        None => Err(MangoError::UnknownEventType),
        Some(EventType::AlreadyProcessed) => Err(MangoError::UnknownEventType),
        Some(EventType::Liquidate) => Ok(Some(l)),
        Some(EventType::Out) => match spec_lookup(l, ev.owner, testing) {
            Lookup::Missing => Ok(None),
            Lookup::Skip => Ok(Some(l)),
            Lookup::NotOwned => Err(MangoError::AccountNotOwned),
            Lookup::Found(i) => match spec_remove_order(l[i as int], ev.owner_slot as int, ev.quantity as int) {
                Err(e) => Err(e),
                Ok(a) => Ok(Some(l.update(i as int, a))),
            },
        },
        Some(EventType::Fill) => if ev.maker == ev.taker {
            match spec_lookup(l, ev.maker, testing) {
                Lookup::Missing => Ok(None),
                Lookup::Skip => Ok(Some(l)),
                Lookup::NotOwned => Err(MangoError::AccountNotOwned),
                Lookup::Found(i) => match spec_maker(l[i as int], ev, market) {
                    Err(e) => Err(e),
                    Ok(a1) => match spec_taker(a1, ev, market) {
                        Err(e) => Err(e),
                        Ok(a2) => Ok(Some(l.update(i as int, a2))),
                    },
                },
            }
        } else {
            match spec_lookup(l, ev.maker, testing) {
                Lookup::Missing => Ok(None),
                Lookup::Skip => Ok(Some(l)),
                Lookup::NotOwned => Err(MangoError::AccountNotOwned),
                Lookup::Found(i) => match spec_lookup(l, ev.taker, testing) {
                    Lookup::Missing => Ok(None),
                    Lookup::Skip => Ok(Some(l)),
                    Lookup::NotOwned => Err(MangoError::AccountNotOwned),
                    Lookup::Found(j) => match spec_maker(l[i as int], ev, market) {
                        Err(e) => Err(e),
                        Ok(a1) => match spec_taker(l[j as int], ev, market) {
                            Err(e) => Err(e),
                            Ok(a2) => Ok(Some(l.update(i as int, a1).update(j as int, a2))),
                        },
                    },
                },
            }
        },
    }
}

/// The sequential drain: `(popped, processed, ledger)` after consuming live
/// events from the front while fewer than `budget` have been processed.
pub open spec fn spec_drain(live: Seq<Event>, l: Seq<AccountModel>, market: PerpMarket, testing: bool, budget: nat) -> Result<(nat, nat, Seq<AccountModel>), MangoError>
    decreases live.len(),
{
    if budget == 0 || live.len() == 0 {
        Ok((0, 0, l))
    } else if live[0].is_processed() {
        match spec_drain(live.drop_first(), l, market, testing, budget) {
            Ok((p, n, l2)) => Ok((p + 1, n, l2)),
            Err(e) => Err(e),
        }
    } else {
        match spec_process_event(l, live[0], market, testing) {
            Err(e) => Err(e),
            Ok(None) => Ok((0, 0, l)),
            Ok(Some(l1)) => match spec_drain(live.drop_first(), l1, market, testing, (budget - 1) as nat) {
                Ok((p, n, l2)) => Ok((p + 1, n + 1, l2)),
                Err(e) => Err(e),
            },
        }
    }
}

pub open spec fn shifted(r: Result<(nat, nat, Seq<AccountModel>), MangoError>, popped: nat, processed: nat) -> Result<(nat, nat, Seq<AccountModel>), MangoError> {
    match r {
        Ok((p, n, l)) => Ok((p + popped, n + processed, l)),
        Err(e) => Err(e),
    }
}

/// The out-of-order pass from position `i`: out events of `key` are applied
/// to `a` and marked consumed in place, while the budget lasts.
pub open spec fn spec_scan(live: Seq<Event>, i: int, key: AccountKey, a: AccountModel, budget: nat) -> Result<(Seq<Event>, AccountModel), MangoError>
    decreases live.len() - i,
{
    if i < 0 || i >= live.len() || budget == 0 {
        Ok((live, a))
    } else if !(live[i].is_out() && live[i].owner == key) {
        spec_scan(live, i + 1, key, a, budget)
    } else {
        match spec_remove_order(a, live[i].owner_slot as int, live[i].quantity as int) {
            Err(e) => Err(e),
            Ok(a1) => spec_scan(live.update(i, live[i].marked()), i + 1, key, a1, (budget - 1) as nat),
        }
    }
}

pub open spec fn capped(limit: nat) -> nat {
    if limit < MAX_EVENTS_PER_CALL {
        limit
    } else {
        MAX_EVENTS_PER_CALL as nat
    }
}

/// One call of the event consumer: the live events and the ledger after it.
pub open spec fn spec_consume(live: Seq<Event>, l: Seq<AccountModel>, market: PerpMarket, testing: bool, limit: nat) -> Result<(Seq<Event>, Seq<AccountModel>), MangoError> {
    if l.len() == 0 {
        Err(MangoError::NoAccounts)
    } else {
        match spec_drain(live, l, market, testing, capped(limit)) {
            Err(e) => Err(e),
            Ok((p, n, l1)) => if !l1[0].0.owned_by_program {
                Err(MangoError::AccountNotOwned)
            } else {
                match spec_scan(live.skip(p as int), 0, l1[0].0.key, l1[0], (capped(limit) - n) as nat) {
                    Err(e) => Err(e),
                    Ok((live2, a0)) => Ok((live2, l1.update(0, a0))),
                }
            },
        }
    }
}

pub(crate) fn duplicate_account(a: &MangoAccount) -> (r: MangoAccount)
    ensures
        r@ == a@,
{
    let mut orders: Vec<OpenOrder> = Vec::new();
    let mut i: usize = 0;
    while i < a.orders.len()
        invariant
            i <= a.orders@.len(),
            orders@ == a.orders@.subrange(0, i as int),
        decreases a.orders@.len() - i,
    {
        orders.push(a.orders[i]);
        i = i + 1;
        assert(orders@ =~= a.orders@.subrange(0, i as int));
    }
    assert(orders@ =~= a.orders@);
    MangoAccount { fixed: a.fixed, orders }
}

fn duplicate_accounts(v: &Vec<MangoAccount>) -> (r: Vec<MangoAccount>)
    ensures
        ledger(r@) == ledger(v@),
{
    let mut r: Vec<MangoAccount> = Vec::new();
    let mut i: usize = 0;
    while i < v.len()
        invariant
            i <= v@.len(),
            ledger(r@) == ledger(v@).subrange(0, i as int),
        decreases v@.len() - i,
    {
        let a = duplicate_account(&v[i]);
        let ghost prev = ledger(r@);
        r.push(a);
        assert(ledger(r@) =~= prev.push(v@[i as int]@));
        i = i + 1;
        assert(ledger(r@) =~= ledger(v@).subrange(0, i as int));
    }
    assert(ledger(r@) =~= ledger(v@));
    r
}

/// Resolves an account by key (first match) and checks its owner.
pub fn lookup(accounts: &Vec<MangoAccount>, key: &AccountKey, testing: bool) -> (r: Lookup)
    ensures
        r == spec_lookup(ledger(accounts@), *key, testing),
{
    let ghost l = ledger(accounts@);
    let mut i: usize = 0;
    while i < accounts.len()
        invariant
            i <= accounts@.len(),
            l == ledger(accounts@),
            forall|j: int| 0 <= j < i ==> l[j].0.key != *key,
        decreases accounts@.len() - i,
    {
        if accounts[i].fixed.key.same_as(key) {
            assert(is_first_with_key(l, *key, i as int));
            let ghost c = choose|c: int| is_first_with_key(l, *key, c);
            assert(c == i as int) by {
                if c < i {
                } else if c > i {
                    assert(l[i as int].0.key == *key);
                }
            }
            if accounts[i].fixed.owned_by_program {
                return Lookup::Found(i);
            } else if testing {
                return Lookup::Skip;
            } else {
                return Lookup::NotOwned;
            }
        }
        i = i + 1;
    }
    Lookup::Missing
}

/// Replaces the account at `i`; the ledger changes at `i` alone.
fn store(accounts: &mut Vec<MangoAccount>, i: usize, a: MangoAccount)
    requires
        i < old(accounts)@.len(),
    ensures
        ledger(final(accounts)@) == ledger(old(accounts)@).update(i as int, a@),
        final(accounts)@.len() == old(accounts)@.len(),
{
    let ghost prev = ledger(accounts@);
    accounts.set(i, a);
    assert(ledger(accounts@) =~= prev.update(i as int, a@));
}

/// Applies one live event to the accounts. `Ok(false)`: a referenced account
/// is missing and nothing changed; `Ok(true)`: the event is consumed.
pub fn process_event(ev: &Event, group: &Group, market: &PerpMarket, accounts: &mut Vec<MangoAccount>) -> (r: Result<bool, MangoError>)
    ensures
        match spec_process_event(ledger(old(accounts)@), *ev, *market, group.testing) {
            Err(e) => r == Err::<bool, MangoError>(e) && ledger(final(accounts)@) == ledger(old(accounts)@),
            Ok(None) => r == Ok::<bool, MangoError>(false) && ledger(final(accounts)@) == ledger(old(accounts)@),
            Ok(Some(l)) => r == Ok::<bool, MangoError>(true) && ledger(final(accounts)@) == l,
        },
        final(accounts)@.len() == old(accounts)@.len(),
{
    reveal(spec_process_event);
    let ghost l = ledger(accounts@);
    let ty = match EventType::from_tag(ev.event_type) {
        None => return Err(MangoError::UnknownEventType),
        Some(t) => t,
    };
    match ty {
        EventType::AlreadyProcessed => Err(MangoError::UnknownEventType),
        EventType::Liquidate => Ok(true),
        EventType::Out => match lookup(accounts, &ev.owner, group.testing) {
            Lookup::Missing => Ok(false),
            Lookup::Skip => Ok(true),
            Lookup::NotOwned => Err(MangoError::AccountNotOwned),
            Lookup::Found(i) => {
                let mut a = duplicate_account(&accounts[i]);
                match a.remove_perp_order(ev.owner_slot as usize, ev.quantity) {
                    Err(e) => Err(e),
                    Ok(()) => {
                        store(accounts, i, a);
                        Ok(true)
                    },
                }
            },
        },
        EventType::Fill => {
            if ev.maker.same_as(&ev.taker) {
                match lookup(accounts, &ev.maker, group.testing) {
                    Lookup::Missing => Ok(false),
                    Lookup::Skip => Ok(true),
                    Lookup::NotOwned => Err(MangoError::AccountNotOwned),
                    Lookup::Found(i) => {
                        let mut a = duplicate_account(&accounts[i]);
                        match a.execute_perp_maker(market, ev) {
                            Err(e) => return Err(e),
                            Ok(()) => {},
                        }
                        match a.execute_perp_taker(market, ev) {
                            Err(e) => return Err(e),
                            Ok(()) => {},
                        }
                        store(accounts, i, a);
                        Ok(true)
                    },
                }
            } else {
                let i = match lookup(accounts, &ev.maker, group.testing) {
                    Lookup::Missing => return Ok(false),
                    Lookup::Skip => return Ok(true),
                    Lookup::NotOwned => return Err(MangoError::AccountNotOwned),
                    Lookup::Found(i) => i,
                };
                let j = match lookup(accounts, &ev.taker, group.testing) {
                    Lookup::Missing => return Ok(false),
                    Lookup::Skip => return Ok(true),
                    Lookup::NotOwned => return Err(MangoError::AccountNotOwned),
                    Lookup::Found(j) => j,
                };
                let mut maker = duplicate_account(&accounts[i]);
                let mut taker = duplicate_account(&accounts[j]);
                match maker.execute_perp_maker(market, ev) {
                    Err(e) => return Err(e),
                    Ok(()) => {},
                }
                match taker.execute_perp_taker(market, ev) {
                    Err(e) => return Err(e),
                    Ok(()) => {},
                }
                store(accounts, i, maker);
                store(accounts, j, taker);
                Ok(true)
            }
        },
    }
}

/// The sequential drain: consumes live events from the front while fewer
/// than `budget` have been processed; returns how many were processed.
fn drain(group: &Group, market: &PerpMarket, q: &mut EventQueue, accs: &mut Vec<MangoAccount>, budget: usize) -> (r: Result<usize, MangoError>)
    requires
        old(q).wf(),
    ensures
        final(q).wf(),
        final(q).capacity() == old(q).capacity(),
        final(accs)@.len() == old(accs)@.len(),
        match spec_drain(old(q).live(), ledger(old(accs)@), *market, group.testing, budget as nat) {
            Ok((p, n, l)) => r == Ok::<usize, MangoError>(n as usize) && n <= budget && p <= old(q).live().len()
                && final(q).live() == old(q).live().skip(p as int) && ledger(final(accs)@) == l,
            Err(e) => r == Err::<usize, MangoError>(e),
        },
{
    let ghost live0 = q.live();
    let ghost l0 = ledger(accs@);
    let mut processed: usize = 0;
    let ghost mut popped: nat = 0;
    loop
        invariant
            q.wf(),
            q.capacity() == old(q).capacity(),
            live0 == old(q).live(),
            l0 == ledger(old(accs)@),
            processed <= budget,
            popped <= live0.len(),
            q.live() == live0.skip(popped as int),
            accs@.len() == old(accs)@.len(),
            spec_drain(live0, l0, *market, group.testing, budget as nat) == shifted(
                spec_drain(q.live(), ledger(accs@), *market, group.testing, (budget - processed) as nat),
                popped,
                processed as nat,
            ),
        ensures
            spec_drain(q.live(), ledger(accs@), *market, group.testing, (budget - processed) as nat)
                == Ok::<(nat, nat, Seq<AccountModel>), MangoError>((0, 0, ledger(accs@))),
        decreases q.live().len(),
    {
        if processed >= budget {
            break;
        }
        let ev = match q.peek_front() {
            None => break,
            Some(e) => e,
        };
        let ghost cur = q.live();
        let ghost lb = ledger(accs@);
        assert(cur.drop_first() == live0.skip(popped + 1 as int)) by {
            assert(cur.drop_first() =~= live0.skip(popped + 1 as int));
        }
        if ev.event_type != TAG_ALREADY_PROCESSED {
            match process_event(&ev, group, market, accs) {
                Err(e) => return Err(e),
                Ok(false) => break,
                Ok(true) => {},
            }
            assert(accs@.len() == lb.len()) by {
                assert(ledger(accs@).len() == lb.len());
            }
            assert(spec_drain(cur, lb, *market, group.testing, (budget - processed) as nat) == shifted(
                spec_drain(cur.drop_first(), ledger(accs@), *market, group.testing, (budget - processed - 1) as nat), 1, 1));
            processed = processed + 1;
        } else {
            assert(spec_drain(cur, lb, *market, group.testing, (budget - processed) as nat) == shifted(
                spec_drain(cur.drop_first(), lb, *market, group.testing, (budget - processed) as nat), 1, 0));
        }
        q.pop_front();
        proof {
            popped = popped + 1;
        }
    }
    Ok(processed)
}

/// The out-of-order pass: applies the out events of `key` to `first` and
/// marks them consumed in place, while the budget lasts.
fn scan(q: &mut EventQueue, first: &mut MangoAccount, key: &AccountKey, budget: usize) -> (r: Result<(), MangoError>)
    requires
        old(q).wf(),
    ensures
        final(q).wf(),
        final(q).capacity() == old(q).capacity(),
        match spec_scan(old(q).live(), 0, *key, old(first)@, budget as nat) {
            Ok((live, a)) => r is Ok && final(q).live() == live && final(first)@ == a,
            Err(e) => r == Err::<(), MangoError>(e),
        },
{
    let mut left: usize = budget;
    let mut i: usize = 0;
    while i < q.len()
        invariant
            q.wf(),
            q.capacity() == old(q).capacity(),
            q.live().len() == old(q).live().len(),
            i <= q.live().len(),
            spec_scan(old(q).live(), 0, *key, old(first)@, budget as nat)
                == spec_scan(q.live(), i as int, *key, first@, left as nat),
        ensures
            left == 0 || i >= q.live().len(),
        decreases q.live().len() - i,
    {
        if left == 0 {
            break;
        }
        let ev = q.get(i);
        if ev.event_type == TAG_OUT && ev.owner.same_as(key) {
            match first.remove_perp_order(ev.owner_slot as usize, ev.quantity) {
                Err(e) => return Err(e),
                Ok(()) => {},
            }
            q.set(i, Event { event_type: TAG_ALREADY_PROCESSED, ..ev });
            left = left - 1;
        }
        i = i + 1;
    }
    assert(left == 0 || i >= q.live().len());
    assert(spec_scan(q.live(), i as int, *key, first@, left as nat) == Ok::<(Seq<Event>, AccountModel), MangoError>((q.live(), first@)));
    Ok(())
}

/// Consumes up to `limit` events (at most eight): a sequential drain from the
/// front of the queue, then an out-of-order pass over the out events of the
/// first account. On an error neither the queue nor the accounts change.
pub fn perp_consume_events(
    group: &Group,
    market: &PerpMarket,
    queue: &mut EventQueue,
    accounts: &mut Vec<MangoAccount>,
    limit: usize,
) -> (r: Result<(), MangoError>)
    requires
        old(queue).wf(),
    ensures
        final(queue).wf(),
        final(queue).capacity() == old(queue).capacity(),
        match spec_consume(old(queue).live(), ledger(old(accounts)@), *market, group.testing, limit as nat) {
            Ok((live, l)) => r is Ok && final(queue).live() == live && ledger(final(accounts)@) == l,
            Err(e) => r == Err::<(), MangoError>(e) && *final(queue) == *old(queue) && *final(accounts) == *old(accounts),
        },
{
    if accounts.len() == 0 {
        return Err(MangoError::NoAccounts);
    }
    let lim: usize = if limit < MAX_EVENTS_PER_CALL { limit } else { MAX_EVENTS_PER_CALL };
    let mut q = queue.duplicate();
    let mut accs = duplicate_accounts(accounts);
    let processed = match drain(group, market, &mut q, &mut accs, lim) {
        Err(e) => return Err(e),
        Ok(n) => n,
    };
    let ghost l1 = ledger(accs@);
    if !accs[0].fixed.owned_by_program {
        return Err(MangoError::AccountNotOwned);
    }
    let key = accs[0].fixed.key;
    let mut first = duplicate_account(&accs[0]);
    match scan(&mut q, &mut first, &key, lim - processed) {
        Err(e) => return Err(e),
        Ok(()) => {},
    }
    store(&mut accs, 0, first);
    *queue = q;
    *accounts = accs;
    Ok(())
}

} // verus!
