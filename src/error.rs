//! Errors of the settlement operations.
use vstd::prelude::*;

verus! {

#[derive(Clone, Copy, Debug, PartialEq, Eq, Structural)]
pub enum MangoError {
    /// The market is not in force-close.
    NotForceClosed,
    /// The reserve bank is not the market's settlement token bank.
    InvalidBank,
    /// An arithmetic result left its range.
    MathOverflow,
    /// An order slot is out of range or holds no order.
    InvalidOrderSlot,
    /// A reserved lot counter would go negative, or a quantity is negative.
    ReservedLotsUnderflow,
    /// An event carries a tag outside the known set, or one that must not be dispatched.
    UnknownEventType,
    /// An account handle is not owned by the program.
    AccountNotOwned,
    /// No account handles were supplied.
    NoAccounts,
    /// The position still holds base lots.
    BaseLotsRemain,
    /// The position still has resting orders.
    OpenOrdersRemain,
    /// The position still has unprocessed own events on the queue.
    PendingEventsRemain,
    /// The position's remaining quote balance is positive.
    PositiveSettlement,
    /// The account holds no position in the settlement token.
    NoSettlementTokenPosition,
    /// The position is not active.
    PositionInactive,
}

} // verus!
