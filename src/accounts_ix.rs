//! The relations that the accounts handed to each operation must satisfy,
//! checked before the operation runs.
use crate::event::AccountKey;
use vstd::prelude::*;

verus! {

#[derive(Clone, Copy, Debug, PartialEq, Eq, Structural)]
pub enum ValidationError {
    /// An account belongs to another group.
    GroupMismatch,
    /// The book sides are not the market's.
    BookMismatch,
    /// The oracle is not the bank's.
    OracleMismatch,
    /// The signer is not the group's admin.
    AdminMismatch,
    /// The operation is disabled in the group.
    IxIsDisabled,
    /// The account is frozen.
    AccountIsFrozen,
}

/// Accounts of order pruning, by the keys they hold.
#[derive(Clone, Copy, Debug, PartialEq, Eq, Structural)]
pub struct PerpPruneOrders {
    pub group: AccountKey,
    /// The group that the mango account belongs to.
    pub account_group: AccountKey,
    /// The group that the perp market belongs to.
    pub perp_market_group: AccountKey,
    /// The book sides that the perp market names.
    pub perp_market_bids: AccountKey,
    pub perp_market_asks: AccountKey,
    /// The book sides supplied.
    pub bids: AccountKey,
    pub asks: AccountKey,
}

/// Accounts of order purging; the same relations as pruning.
#[derive(Clone, Copy, Debug, PartialEq, Eq, Structural)]
pub struct PerpPurgeOrders {
    pub group: AccountKey,
    pub account_group: AccountKey,
    pub perp_market_group: AccountKey,
    pub perp_market_bids: AccountKey,
    pub perp_market_asks: AccountKey,
    pub bids: AccountKey,
    pub asks: AccountKey,
}

/// Accounts of a position purge.
#[derive(Clone, Copy, Debug, PartialEq, Eq, Structural)]
pub struct PerpPurgePosition {
    pub group: AccountKey,
    pub account_group: AccountKey,
    pub perp_market_group: AccountKey,
    pub settle_bank_group: AccountKey,
    /// The oracle that the settlement bank names.
    pub settle_bank_oracle: AccountKey,
    /// The oracle supplied.
    pub settle_oracle: AccountKey,
}

/// Accounts of a conditional-swap purge.
#[derive(Clone, Copy, Debug, PartialEq, Eq, Structural)]
pub struct TokenConditionalSwapPurge {
    pub group: AccountKey,
    /// Whether the group enables conditional-swap cancellation.
    pub cancel_enabled: bool,
    pub account_group: AccountKey,
    /// Whether the account is operational (not frozen).
    pub account_operational: bool,
    pub buy_bank_group: AccountKey,
    pub sell_bank_group: AccountKey,
}

/// Accounts of setting a stub oracle's price.
#[derive(Clone, Copy, Debug, PartialEq, Eq, Structural)]
pub struct SetStubOracle {
    pub group: AccountKey,
    /// The admin that the group names.
    pub group_admin: AccountKey,
    /// The signer.
    pub admin: AccountKey,
    pub oracle_group: AccountKey,
}

pub open spec fn book_accounts_valid(
    group: AccountKey,
    account_group: AccountKey,
    market_group: AccountKey,
    market_bids: AccountKey,
    market_asks: AccountKey,
    bids: AccountKey,
    asks: AccountKey,
) -> Result<(), ValidationError> {
    if account_group != group || market_group != group {
        Err(ValidationError::GroupMismatch)
    } else if market_bids != bids || market_asks != asks {
        Err(ValidationError::BookMismatch)
    } else {
        Ok(())
    }
}

fn check_book_accounts(
    group: &AccountKey,
    account_group: &AccountKey,
    market_group: &AccountKey,
    market_bids: &AccountKey,
    market_asks: &AccountKey,
    bids: &AccountKey,
    asks: &AccountKey,
) -> (r: Result<(), ValidationError>)
    ensures
        r == book_accounts_valid(*group, *account_group, *market_group, *market_bids, *market_asks, *bids, *asks),
{
    if !account_group.same_as(group) || !market_group.same_as(group) {
        Err(ValidationError::GroupMismatch)
    } else if !market_bids.same_as(bids) || !market_asks.same_as(asks) {
        Err(ValidationError::BookMismatch)
    } else {
        Ok(())
    }
}

impl PerpPruneOrders {
    pub fn validate(&self) -> (r: Result<(), ValidationError>)
        ensures
            r == book_accounts_valid(
                self.group,
                self.account_group,
                self.perp_market_group,
                self.perp_market_bids,
                self.perp_market_asks,
                self.bids,
                self.asks,
            ),
    {
        check_book_accounts(
            &self.group,
            &self.account_group,
            &self.perp_market_group,
            &self.perp_market_bids,
            &self.perp_market_asks,
            &self.bids,
            &self.asks,
        )
    }
}

impl PerpPurgeOrders {
    pub fn validate(&self) -> (r: Result<(), ValidationError>)
        ensures
            r == book_accounts_valid(
                self.group,
                self.account_group,
                self.perp_market_group,
                self.perp_market_bids,
                self.perp_market_asks,
                self.bids,
                self.asks,
            ),
    {
        check_book_accounts(
            &self.group,
            &self.account_group,
            &self.perp_market_group,
            &self.perp_market_bids,
            &self.perp_market_asks,
            &self.bids,
            &self.asks,
        )
    }
}

impl PerpPurgePosition {
    pub fn validate(&self) -> (r: Result<(), ValidationError>)
        ensures
            r == (if self.account_group != self.group || self.perp_market_group != self.group
                || self.settle_bank_group != self.group {
                Err(ValidationError::GroupMismatch)
            } else if self.settle_oracle != self.settle_bank_oracle {
                Err(ValidationError::OracleMismatch)
            } else {
                Ok(())
            }),
    {
        if !self.account_group.same_as(&self.group) || !self.perp_market_group.same_as(&self.group)
            || !self.settle_bank_group.same_as(&self.group) {
            Err(ValidationError::GroupMismatch)
        } else if !self.settle_oracle.same_as(&self.settle_bank_oracle) {
            Err(ValidationError::OracleMismatch)
        } else {
            Ok(())
        }
    }
}

impl TokenConditionalSwapPurge {
    pub fn validate(&self) -> (r: Result<(), ValidationError>)
        ensures
            r == (if !self.cancel_enabled {
                Err(ValidationError::IxIsDisabled)
            } else if self.account_group != self.group {
                Err(ValidationError::GroupMismatch)
            } else if !self.account_operational {
                Err(ValidationError::AccountIsFrozen)
            } else if self.buy_bank_group != self.group || self.sell_bank_group != self.group {
                Err(ValidationError::GroupMismatch)
            } else {
                Ok(())
            }),
    {
        if !self.cancel_enabled {
            Err(ValidationError::IxIsDisabled)
        } else if !self.account_group.same_as(&self.group) {
            Err(ValidationError::GroupMismatch)
        } else if !self.account_operational {
            Err(ValidationError::AccountIsFrozen)
        } else if !self.buy_bank_group.same_as(&self.group) || !self.sell_bank_group.same_as(&self.group) {
            Err(ValidationError::GroupMismatch)
        } else {
            Ok(())
        }
    }
}

impl SetStubOracle {
    pub fn validate(&self) -> (r: Result<(), ValidationError>)
        ensures
            r == (if self.admin != self.group_admin {
                Err(ValidationError::AdminMismatch)
            } else if self.oracle_group != self.group {
                Err(ValidationError::GroupMismatch)
            } else {
                Ok(())
            }),
    {
        if !self.admin.same_as(&self.group_admin) {
            Err(ValidationError::AdminMismatch)
        } else if !self.oracle_group.same_as(&self.group) {
            Err(ValidationError::GroupMismatch)
        } else {
            Ok(())
        }
    }
}

} // verus!
