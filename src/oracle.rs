//! A settable price record for tests and operations.
use vstd::prelude::*;

verus! {

#[derive(Clone, Copy, Debug, PartialEq, Eq, Structural)]
pub struct StubOracle {
    /// Price (I80F48 bits).
    pub price: i128,
    /// Unix time of the last update.
    pub last_updated: i64,
}

/// Sets the price and stamps it with the time `now`.
pub fn set_stub_oracle(oracle: &mut StubOracle, price: i128, now: i64) -> (r: Result<(), crate::error::MangoError>)
    ensures
        r is Ok,
        *final(oracle) == (StubOracle { price, last_updated: now }),
{
    oracle.price = price;
    oracle.last_updated = now;
    Ok(())
}

} // verus!
