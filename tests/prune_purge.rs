use mango_settle::account::{MangoAccount, MangoAccountFixed, OpenOrder, PerpMarket, PerpPosition};
use mango_settle::book::{perp_prune_orders, BookSide, Order, Orderbook};
use mango_settle::error::MangoError;
use mango_settle::event::{AccountKey, Side};
use mango_settle::feed::SnapshotType;
use mango_settle::oracle::{set_stub_oracle, StubOracle};
use mango_settle::purge::{perp_purge_position, Bank};

const ONE: i128 = 1 << 48;

fn key(n: u64) -> AccountKey {
    AccountKey { w0: n, w1: 0, w2: 0, w3: 0 }
}

fn position() -> PerpPosition {
    PerpPosition {
        market_index: 1,
        base_position_lots: 0,
        bids_base_lots: 0,
        asks_base_lots: 0,
        taker_base_lots: 0,
        taker_quote_lots: 0,
        quote_position_native: 0,
        long_settled_funding: 0,
        short_settled_funding: 0,
        perp_spot_transfers: 0,
    }
}

fn account(position: PerpPosition, orders: Vec<OpenOrder>, token: i128) -> MangoAccount {
    MangoAccount {
        fixed: MangoAccountFixed {
            key: key(1),
            owned_by_program: true,
            perp_spot_transfers: 0,
            position_active: true,
            position,
            token_index: 0,
            token_indexed_position: token,
        },
        orders,
    }
}

fn closed_market() -> PerpMarket {
    PerpMarket {
        perp_market_index: 1,
        settle_token_index: 0,
        quote_lot_size: 1,
        force_close: true,
        long_funding: 3 * ONE,
        short_funding: 4 * ONE,
    }
}

fn bank() -> Bank {
    Bank { token_index: 0, deposit_index: ONE, borrow_index: 2 * ONE, indexed_deposits: 1000 * ONE, indexed_borrows: 0 }
}

fn order(id: u64, owner: u64, slot: u8, qty: i64) -> Order {
    Order { id, price: 10, quantity: qty, owner: key(owner), owner_slot: slot }
}

fn book_and_account() -> (Orderbook, MangoAccount) {
    let book = Orderbook {
        bids: BookSide { orders: vec![order(1, 1, 0, 2), order(2, 9, 0, 7), order(3, 1, 1, 3)] },
        asks: BookSide { orders: vec![order(4, 9, 1, 1), order(5, 1, 2, 4)] },
    };
    let pos = PerpPosition { bids_base_lots: 5, asks_base_lots: 4, ..position() };
    let orders = vec![
        OpenOrder { side: Side::Bid, active: true },
        OpenOrder { side: Side::Bid, active: true },
        OpenOrder { side: Side::Ask, active: true },
    ];
    (book, account(pos, orders, 0))
}

fn ids(side: &BookSide) -> Vec<u64> {
    side.orders.iter().map(|o| o.id).collect()
}

#[test]
fn prune_needs_force_close() {
    let (mut book, mut acct) = book_and_account();
    let m = PerpMarket { force_close: false, ..closed_market() };
    assert_eq!(perp_prune_orders(&m, &mut book, &mut acct, 10), Err(MangoError::NotForceClosed));
    assert_eq!(ids(&book.bids), vec![1, 2, 3]);
}

#[test]
fn prune_removes_all_own_orders() {
    let (mut book, mut acct) = book_and_account();
    assert_eq!(perp_prune_orders(&closed_market(), &mut book, &mut acct, 10), Ok(()));
    assert_eq!(ids(&book.bids), vec![2]);
    assert_eq!(ids(&book.asks), vec![4]);
    assert_eq!(acct.fixed.position.bids_base_lots, 0);
    assert_eq!(acct.fixed.position.asks_base_lots, 0);
    assert!(acct.orders.iter().all(|o| !o.active));
}

#[test]
fn prune_stops_at_limit() {
    let (mut book, mut acct) = book_and_account();
    assert_eq!(perp_prune_orders(&closed_market(), &mut book, &mut acct, 2), Ok(()));
    assert_eq!(ids(&book.bids), vec![2]);
    assert_eq!(ids(&book.asks), vec![4, 5]);
    assert_eq!(acct.fixed.position.bids_base_lots, 0);
    assert_eq!(acct.fixed.position.asks_base_lots, 4);
}

#[test]
fn prune_error_changes_nothing() {
    let (mut book, mut acct) = book_and_account();
    acct.orders[2].active = false;
    assert_eq!(
        perp_prune_orders(&closed_market(), &mut book, &mut acct, 10),
        Err(MangoError::InvalidOrderSlot)
    );
    assert_eq!(ids(&book.bids), vec![1, 2, 3]);
    assert_eq!(acct.fixed.position.bids_base_lots, 5);
}

#[test]
fn purge_settles_negative_balance() {
    let pos = PerpPosition { quote_position_native: -(10 * ONE + ONE / 2), ..position() };
    let mut acct = account(pos, vec![], 100 * ONE);
    let mut b = bank();
    assert_eq!(perp_purge_position(&closed_market(), &mut b, &mut acct), Ok(()));
    assert_eq!(acct.fixed.position.quote_position_native, 0);
    assert_eq!(acct.fixed.position.perp_spot_transfers, 10);
    assert_eq!(acct.fixed.perp_spot_transfers, 10);
    assert_eq!(acct.fixed.token_indexed_position, 90 * ONE);
    assert_eq!(b.indexed_deposits, 990 * ONE);
    assert_eq!(acct.fixed.position.long_settled_funding, 3 * ONE);
    assert!(!acct.fixed.position_active);
}

#[test]
fn purge_borrows_through_borrow_index() {
    let pos = PerpPosition { quote_position_native: -8 * ONE, ..position() };
    let mut acct = account(pos, vec![], 0);
    let mut b = bank();
    assert_eq!(perp_purge_position(&closed_market(), &mut b, &mut acct), Ok(()));
    assert_eq!(acct.fixed.token_indexed_position, -4 * ONE);
    assert_eq!(b.indexed_borrows, 4 * ONE);
}

#[test]
fn purge_zero_balance_only_deactivates() {
    let mut acct = account(position(), vec![], 5 * ONE);
    let mut b = bank();
    assert_eq!(perp_purge_position(&closed_market(), &mut b, &mut acct), Ok(()));
    assert!(!acct.fixed.position_active);
    assert_eq!(acct.fixed.token_indexed_position, 5 * ONE);
    assert_eq!(b, bank());
}

#[test]
fn purge_rejects_positive_balance() {
    let pos = PerpPosition { quote_position_native: 2 * ONE, ..position() };
    let mut acct = account(pos, vec![], 0);
    let before = acct.fixed;
    let mut b = bank();
    assert_eq!(perp_purge_position(&closed_market(), &mut b, &mut acct), Err(MangoError::PositiveSettlement));
    assert_eq!(acct.fixed, before);
}

#[test]
fn purge_gates() {
    let cases = [
        (PerpPosition { base_position_lots: 1, ..position() }, MangoError::BaseLotsRemain),
        (PerpPosition { bids_base_lots: 1, ..position() }, MangoError::OpenOrdersRemain),
        (PerpPosition { asks_base_lots: 1, ..position() }, MangoError::OpenOrdersRemain),
        (PerpPosition { taker_base_lots: 1, ..position() }, MangoError::PendingEventsRemain),
        (PerpPosition { taker_quote_lots: -1, ..position() }, MangoError::PendingEventsRemain),
        (PerpPosition { market_index: 2, ..position() }, MangoError::PositionInactive),
    ];
    for (pos, err) in cases {
        let mut acct = account(pos, vec![], 0);
        let before = acct.fixed;
        let mut b = bank();
        assert_eq!(perp_purge_position(&closed_market(), &mut b, &mut acct), Err(err));
        assert_eq!(acct.fixed, before);
        assert_eq!(b, bank());
    }
}

#[test]
fn purge_needs_force_close_and_settle_bank() {
    let mut acct = account(position(), vec![], 0);
    let mut b = bank();
    let open = PerpMarket { force_close: false, ..closed_market() };
    assert_eq!(perp_purge_position(&open, &mut b, &mut acct), Err(MangoError::NotForceClosed));
    let mut other = Bank { token_index: 3, ..bank() };
    assert_eq!(perp_purge_position(&closed_market(), &mut other, &mut acct), Err(MangoError::InvalidBank));
    assert!(acct.fixed.position_active);
}

#[test]
fn purge_zero_index_is_error() {
    let pos = PerpPosition { quote_position_native: -ONE, ..position() };
    let mut acct = account(pos, vec![], 0);
    let mut b = Bank { borrow_index: 0, ..bank() };
    assert_eq!(perp_purge_position(&closed_market(), &mut b, &mut acct), Err(MangoError::MathOverflow));
    assert!(acct.fixed.position_active);
}

#[test]
fn purge_zero_balance_needs_no_settlement_token() {
    let mut acct = account(position(), vec![], 5 * ONE);
    acct.fixed.token_index = 6;
    let mut b = bank();
    assert_eq!(perp_purge_position(&closed_market(), &mut b, &mut acct), Ok(()));
    assert!(!acct.fixed.position_active);
}

#[test]
fn purge_settlement_needs_settlement_token() {
    let pos = PerpPosition { quote_position_native: -3 * ONE, ..position() };
    let mut acct = account(pos, vec![], 5 * ONE);
    acct.fixed.token_index = 6;
    let before = acct.fixed;
    let mut b = bank();
    assert_eq!(
        perp_purge_position(&closed_market(), &mut b, &mut acct),
        Err(MangoError::NoSettlementTokenPosition)
    );
    assert_eq!(acct.fixed, before);
    assert_eq!(b, bank());
}

#[test]
fn purge_withdraw_crosses_into_borrow() {
    // deposit worth 4 at the deposit index; the other 6 are borrowed at index 2
    let pos = PerpPosition { quote_position_native: -10 * ONE, ..position() };
    let mut acct = account(pos, vec![], 4 * ONE);
    let mut b = bank();
    assert_eq!(perp_purge_position(&closed_market(), &mut b, &mut acct), Ok(()));
    assert_eq!(acct.fixed.token_indexed_position, -3 * ONE);
    assert_eq!(b.indexed_deposits, 996 * ONE);
    assert_eq!(b.indexed_borrows, 3 * ONE);
}

#[test]
fn purge_deposit_index_scales_withdrawal() {
    // one indexed unit is worth 4 native units: 10 native is 2.5 indexed
    let pos = PerpPosition { quote_position_native: -10 * ONE, ..position() };
    let mut acct = account(pos, vec![], 10 * ONE);
    let mut b = Bank { deposit_index: 4 * ONE, ..bank() };
    assert_eq!(perp_purge_position(&closed_market(), &mut b, &mut acct), Ok(()));
    assert_eq!(acct.fixed.token_indexed_position, 7 * ONE + ONE / 2);
}

#[test]
fn stub_oracle_is_set() {
    let mut o = StubOracle { price: 0, last_updated: 0 };
    assert_eq!(set_stub_oracle(&mut o, 7 * ONE, 1_700_000_000), Ok(()));
    assert_eq!(o, StubOracle { price: 7 * ONE, last_updated: 1_700_000_000 });
    assert_ne!(SnapshotType::Full, SnapshotType::Partial);
}
