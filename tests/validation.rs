use mango_settle::accounts_ix::{
    PerpPruneOrders, PerpPurgeOrders, PerpPurgePosition, SetStubOracle, TokenConditionalSwapPurge, ValidationError,
};
use mango_settle::event::AccountKey;

fn key(n: u64) -> AccountKey {
    AccountKey { w0: n, w1: 1, w2: 2, w3: 3 }
}

fn prune() -> PerpPruneOrders {
    PerpPruneOrders {
        group: key(1),
        account_group: key(1),
        perp_market_group: key(1),
        perp_market_bids: key(2),
        perp_market_asks: key(3),
        bids: key(2),
        asks: key(3),
    }
}

#[test]
fn prune_accounts_checked() {
    assert_eq!(prune().validate(), Ok(()));
    assert_eq!(PerpPruneOrders { account_group: key(9), ..prune() }.validate(), Err(ValidationError::GroupMismatch));
    assert_eq!(PerpPruneOrders { asks: key(2), ..prune() }.validate(), Err(ValidationError::BookMismatch));
    let purge = PerpPurgeOrders {
        group: key(1),
        account_group: key(1),
        perp_market_group: key(5),
        perp_market_bids: key(2),
        perp_market_asks: key(3),
        bids: key(2),
        asks: key(3),
    };
    assert_eq!(purge.validate(), Err(ValidationError::GroupMismatch));
}

#[test]
fn purge_position_accounts_checked() {
    let v = PerpPurgePosition {
        group: key(1),
        account_group: key(1),
        perp_market_group: key(1),
        settle_bank_group: key(1),
        settle_bank_oracle: key(4),
        settle_oracle: key(4),
    };
    assert_eq!(v.validate(), Ok(()));
    assert_eq!(PerpPurgePosition { settle_oracle: key(5), ..v }.validate(), Err(ValidationError::OracleMismatch));
    assert_eq!(PerpPurgePosition { settle_bank_group: key(5), ..v }.validate(), Err(ValidationError::GroupMismatch));
}

#[test]
fn conditional_swap_purge_accounts_checked() {
    let v = TokenConditionalSwapPurge {
        group: key(1),
        cancel_enabled: true,
        account_group: key(1),
        account_operational: true,
        buy_bank_group: key(1),
        sell_bank_group: key(1),
    };
    assert_eq!(v.validate(), Ok(()));
    assert_eq!(TokenConditionalSwapPurge { cancel_enabled: false, ..v }.validate(), Err(ValidationError::IxIsDisabled));
    assert_eq!(
        TokenConditionalSwapPurge { account_operational: false, ..v }.validate(),
        Err(ValidationError::AccountIsFrozen)
    );
    assert_eq!(TokenConditionalSwapPurge { sell_bank_group: key(2), ..v }.validate(), Err(ValidationError::GroupMismatch));
}

#[test]
fn stub_oracle_accounts_checked() {
    let v = SetStubOracle { group: key(1), group_admin: key(7), admin: key(7), oracle_group: key(1) };
    assert_eq!(v.validate(), Ok(()));
    assert_eq!(SetStubOracle { admin: key(8), ..v }.validate(), Err(ValidationError::AdminMismatch));
    assert_eq!(SetStubOracle { oracle_group: key(8), ..v }.validate(), Err(ValidationError::GroupMismatch));
}
