use mango_settle::account::{MangoAccount, MangoAccountFixed, OpenOrder, PerpMarket, PerpPosition};
use mango_settle::consume::{lookup, perp_consume_events, process_event, Group, Lookup};
use mango_settle::error::MangoError;
use mango_settle::event::{
    AccountKey, Event, EventType, Side, TAG_ALREADY_PROCESSED, TAG_FILL, TAG_LIQUIDATE, TAG_OUT,
};
use mango_settle::queue::EventQueue;

const ONE: i128 = 1 << 48;

fn key(n: u64) -> AccountKey {
    AccountKey { w0: n, w1: 7, w2: 8, w3: 9 }
}

fn blank_event() -> Event {
    Event {
        event_type: TAG_ALREADY_PROCESSED,
        taker_side: Side::Bid,
        maker_out: false,
        maker_slot: 0,
        timestamp: 0,
        seq_num: 0,
        maker: key(0),
        maker_client_order_id: 0,
        taker: key(0),
        taker_client_order_id: 0,
        price: 0,
        quantity: 0,
        owner: key(0),
        owner_slot: 0,
    }
}

fn fill(maker: u64, taker: u64, qty: i64, price: i64, taker_side: Side, maker_slot: u8, maker_out: bool) -> Event {
    Event {
        event_type: TAG_FILL,
        taker_side,
        maker_out,
        maker_slot,
        maker: key(maker),
        taker: key(taker),
        price,
        quantity: qty,
        ..blank_event()
    }
}

fn out(owner: u64, slot: u8, qty: i64) -> Event {
    Event { event_type: TAG_OUT, owner: key(owner), owner_slot: slot, quantity: qty, ..blank_event() }
}

fn position() -> PerpPosition {
    PerpPosition {
        market_index: 1,
        base_position_lots: 0,
        bids_base_lots: 0,
        asks_base_lots: 0,
        taker_base_lots: 0,
        taker_quote_lots: 0,
        quote_position_native: 0,
        long_settled_funding: 0,
        short_settled_funding: 0,
        perp_spot_transfers: 0,
    }
}

fn account(n: u64, position: PerpPosition, orders: Vec<OpenOrder>) -> MangoAccount {
    MangoAccount {
        fixed: MangoAccountFixed {
            key: key(n),
            owned_by_program: true,
            perp_spot_transfers: 0,
            position_active: true,
            position,
            token_index: 0,
            token_indexed_position: 0,
        },
        orders,
    }
}

fn market() -> PerpMarket {
    PerpMarket {
        perp_market_index: 1,
        settle_token_index: 0,
        quote_lot_size: 1,
        force_close: false,
        long_funding: 0,
        short_funding: 0,
    }
}

fn queue(events: &[Event]) -> EventQueue {
    let mut q = EventQueue::new(16, blank_event());
    for e in events {
        assert!(q.push_back(*e));
    }
    q
}

fn live(q: &EventQueue) -> Vec<Event> {
    (0..q.len()).map(|i| q.get(i)).collect()
}

/// A holds an ask of 5 in slot 0 and a bid of 3 in slot 2; B has a pending taker bid of 5 at 10.
fn accounts_a_b() -> (MangoAccount, MangoAccount) {
    let a_pos = PerpPosition { bids_base_lots: 3, asks_base_lots: 5, ..position() };
    let a = account(
        1,
        a_pos,
        vec![
            OpenOrder { side: Side::Ask, active: true },
            OpenOrder { side: Side::Bid, active: false },
            OpenOrder { side: Side::Bid, active: true },
        ],
    );
    let b_pos = PerpPosition { taker_base_lots: 5, taker_quote_lots: -50, ..position() };
    let b = account(2, b_pos, vec![]);
    (a, b)
}

fn three_events() -> Vec<Event> {
    vec![fill(1, 2, 5, 10, Side::Bid, 0, false), out(1, 2, 3), blank_event()]
}

#[test]
fn consume_fill_out_and_processed() {
    let (a, b) = accounts_a_b();
    let mut accounts = vec![a, b];
    let mut q = queue(&three_events());
    let r = perp_consume_events(&Group { testing: false }, &market(), &mut q, &mut accounts, 8);
    assert_eq!(r, Ok(()));
    assert_eq!(q.len(), 0);
    let a = &accounts[0].fixed.position;
    let b = &accounts[1].fixed.position;
    assert_eq!(a.base_position_lots, -5);
    assert_eq!(b.base_position_lots, 5);
    assert_eq!(a.quote_position_native, 50 * ONE);
    assert_eq!(b.quote_position_native, -50 * ONE);
    assert_eq!(a.asks_base_lots, 0);
    assert_eq!(a.bids_base_lots, 0);
    assert!(!accounts[0].orders[2].active);
    assert_eq!(b.taker_base_lots, 0);
    assert_eq!(b.taker_quote_lots, 0);
}

#[test]
fn consume_missing_maker_is_soft() {
    let (_, b) = accounts_a_b();
    let b_before = b.clone();
    let mut accounts = vec![b];
    let mut q = queue(&three_events());
    let r = perp_consume_events(&Group { testing: false }, &market(), &mut q, &mut accounts, 8);
    assert_eq!(r, Ok(()));
    assert_eq!(live(&q), three_events());
    assert_eq!(accounts[0].fixed, b_before.fixed);
    assert_eq!(accounts[0].orders, b_before.orders);
}

#[test]
fn consume_twice_applies_once() {
    let (a, b) = accounts_a_b();
    let mut accounts = vec![a, b];
    let mut q = queue(&three_events());
    let g = Group { testing: false };
    assert_eq!(perp_consume_events(&g, &market(), &mut q, &mut accounts, 8), Ok(()));
    let after_first: Vec<MangoAccountFixed> = accounts.iter().map(|x| x.fixed).collect();
    assert_eq!(perp_consume_events(&g, &market(), &mut q, &mut accounts, 8), Ok(()));
    let after_second: Vec<MangoAccountFixed> = accounts.iter().map(|x| x.fixed).collect();
    assert_eq!(after_first, after_second);
    assert_eq!(q.len(), 0);
}

#[test]
fn consume_out_underflow_changes_nothing() {
    let (a, b) = accounts_a_b();
    let mut accounts = vec![a, b];
    let before: Vec<MangoAccountFixed> = accounts.iter().map(|x| x.fixed).collect();
    let events = vec![out(1, 2, 4)];
    let mut q = queue(&events);
    let r = perp_consume_events(&Group { testing: false }, &market(), &mut q, &mut accounts, 8);
    assert_eq!(r, Err(MangoError::ReservedLotsUnderflow));
    assert_eq!(live(&q), events);
    let after: Vec<MangoAccountFixed> = accounts.iter().map(|x| x.fixed).collect();
    assert_eq!(before, after);
    assert!(accounts[0].orders[2].active);
}

#[test]
fn consume_error_after_progress_rolls_back() {
    let (a, b) = accounts_a_b();
    let mut accounts = vec![a, b];
    let before: Vec<MangoAccountFixed> = accounts.iter().map(|x| x.fixed).collect();
    let events = vec![fill(1, 2, 5, 10, Side::Bid, 0, false), out(1, 2, 9)];
    let mut q = queue(&events);
    let r = perp_consume_events(&Group { testing: false }, &market(), &mut q, &mut accounts, 8);
    assert_eq!(r, Err(MangoError::ReservedLotsUnderflow));
    assert_eq!(live(&q), events);
    let after: Vec<MangoAccountFixed> = accounts.iter().map(|x| x.fixed).collect();
    assert_eq!(before, after);
}

#[test]
fn consume_respects_limit() {
    let (a, b) = accounts_a_b();
    let mut accounts = vec![b, a];
    let mut q = queue(&three_events());
    let r = perp_consume_events(&Group { testing: false }, &market(), &mut q, &mut accounts, 1);
    assert_eq!(r, Ok(()));
    assert_eq!(q.len(), 2);
    assert_eq!(q.get(0), out(1, 2, 3));
    assert_eq!(accounts[1].fixed.position.bids_base_lots, 3);
    assert_eq!(accounts[1].fixed.position.base_position_lots, -5);
}

#[test]
fn consume_limit_is_capped_at_eight() {
    let mut orders = Vec::new();
    for _ in 0..10 {
        orders.push(OpenOrder { side: Side::Bid, active: true });
    }
    let a = account(1, PerpPosition { bids_base_lots: 10, ..position() }, orders);
    let mut accounts = vec![account(5, position(), vec![]), a];
    let events: Vec<Event> = (0..10).map(|i| out(1, i as u8, 1)).collect();
    let mut q = queue(&events);
    let r = perp_consume_events(&Group { testing: false }, &market(), &mut q, &mut accounts, 100);
    assert_eq!(r, Ok(()));
    assert_eq!(q.len(), 2);
    assert_eq!(accounts[1].fixed.position.bids_base_lots, 2);
}

#[test]
fn consume_out_of_order_for_first_account() {
    let (a, b) = accounts_a_b();
    // the fill's taker (key 3) is missing, so the drain stops at the head
    let events = vec![fill(2, 3, 1, 10, Side::Bid, 0, false), out(1, 2, 3), out(2, 0, 1)];
    let mut accounts = vec![a, b];
    let mut q = queue(&events);
    let r = perp_consume_events(&Group { testing: false }, &market(), &mut q, &mut accounts, 8);
    assert_eq!(r, Ok(()));
    assert_eq!(q.len(), 3);
    assert_eq!(q.get(0), events[0]);
    assert_eq!(q.get(1).event_type, TAG_ALREADY_PROCESSED);
    assert_eq!(q.get(2), events[2]);
    assert_eq!(accounts[0].fixed.position.bids_base_lots, 0);
    assert!(!accounts[0].orders[2].active);
}

#[test]
fn consume_skips_foreign_account_in_testing_mode() {
    let (a, mut b) = accounts_a_b();
    b.fixed.owned_by_program = false;
    let b_before = b.fixed;
    let mut accounts = vec![a, b];
    let mut q = queue(&three_events());
    let r = perp_consume_events(&Group { testing: true }, &market(), &mut q, &mut accounts, 8);
    assert_eq!(r, Ok(()));
    assert_eq!(q.len(), 0);
    // the fill was skipped entirely; the out event was applied
    assert_eq!(accounts[0].fixed.position.base_position_lots, 0);
    assert_eq!(accounts[0].fixed.position.bids_base_lots, 0);
    assert_eq!(accounts[1].fixed, b_before);
}

#[test]
fn consume_foreign_account_is_error_outside_testing() {
    let (a, mut b) = accounts_a_b();
    b.fixed.owned_by_program = false;
    let mut accounts = vec![a, b];
    let mut q = queue(&three_events());
    let r = perp_consume_events(&Group { testing: false }, &market(), &mut q, &mut accounts, 8);
    assert_eq!(r, Err(MangoError::AccountNotOwned));
    assert_eq!(q.len(), 3);
}

#[test]
fn consume_unknown_tag_is_error() {
    let (a, b) = accounts_a_b();
    let mut accounts = vec![a, b];
    let mut q = queue(&[Event { event_type: 9, ..blank_event() }]);
    let r = perp_consume_events(&Group { testing: false }, &market(), &mut q, &mut accounts, 8);
    assert_eq!(r, Err(MangoError::UnknownEventType));
    assert_eq!(EventType::from_tag(9), None);
    assert_eq!(EventType::from_tag(TAG_LIQUIDATE), Some(EventType::Liquidate));
}

#[test]
fn consume_without_accounts_is_error() {
    let mut accounts: Vec<MangoAccount> = vec![];
    let mut q = queue(&three_events());
    let r = perp_consume_events(&Group { testing: false }, &market(), &mut q, &mut accounts, 8);
    assert_eq!(r, Err(MangoError::NoAccounts));
}

#[test]
fn self_trade_updates_one_account() {
    let pos = PerpPosition { asks_base_lots: 2, taker_base_lots: 2, taker_quote_lots: -8, ..position() };
    let mut accounts = vec![account(1, pos, vec![OpenOrder { side: Side::Ask, active: true }])];
    let ev = fill(1, 1, 2, 4, Side::Bid, 0, true);
    let r = process_event(&ev, &Group { testing: false }, &market(), &mut accounts);
    assert_eq!(r, Ok(true));
    let p = accounts[0].fixed.position;
    assert_eq!(p.base_position_lots, 0);
    assert_eq!(p.quote_position_native, 0);
    assert_eq!(p.asks_base_lots, 0);
    assert_eq!(p.taker_base_lots, 0);
    assert_eq!(p.taker_quote_lots, 0);
    assert!(!accounts[0].orders[0].active);
}

#[test]
fn fill_quote_uses_lot_size() {
    let (a, b) = accounts_a_b();
    let mut accounts = vec![a, b];
    let m = PerpMarket { quote_lot_size: 100, ..market() };
    let ev = fill(1, 2, 5, 10, Side::Bid, 0, false);
    assert_eq!(process_event(&ev, &Group { testing: false }, &m, &mut accounts), Ok(true));
    assert_eq!(accounts[0].fixed.position.quote_position_native, 5000 * ONE);
    assert_eq!(accounts[1].fixed.position.quote_position_native, -5000 * ONE);
}

#[test]
fn fill_overflow_is_error() {
    let (a, b) = accounts_a_b();
    let mut accounts = vec![a, b];
    let ev = fill(1, 2, 5, i64::MAX, Side::Bid, 0, false);
    assert_eq!(
        process_event(&ev, &Group { testing: false }, &market(), &mut accounts),
        Err(MangoError::MathOverflow)
    );
}

#[test]
fn lookup_three_ways() {
    let (a, mut b) = accounts_a_b();
    b.fixed.owned_by_program = false;
    let accounts = vec![a, b];
    assert_eq!(lookup(&accounts, &key(1), false), Lookup::Found(0));
    assert_eq!(lookup(&accounts, &key(3), false), Lookup::Missing);
    assert_eq!(lookup(&accounts, &key(2), true), Lookup::Skip);
    assert_eq!(lookup(&accounts, &key(2), false), Lookup::NotOwned);
}

#[test]
fn key_compare_looks_past_first_word() {
    let a = key(1);
    let b = AccountKey { w3: 10, ..key(1) };
    assert!(a.same_as(&a));
    assert!(!a.same_as(&b));
    assert!(!a.same_as(&key(2)));
}

#[test]
fn queue_ring_wraps() {
    let mut q = EventQueue::new(3, blank_event());
    assert!(q.push_back(out(1, 0, 1)));
    assert!(q.push_back(out(1, 1, 1)));
    assert!(q.push_back(out(1, 2, 1)));
    assert!(q.is_full());
    assert!(!q.push_back(out(1, 3, 1)));
    q.pop_front();
    q.pop_front();
    assert!(q.push_back(out(1, 4, 1)));
    assert_eq!(q.len(), 2);
    assert_eq!(q.peek_front(), Some(out(1, 2, 1)));
    assert_eq!(q.get(1), out(1, 4, 1));
    q.set(1, blank_event());
    assert_eq!(q.get(1), blank_event());
}
