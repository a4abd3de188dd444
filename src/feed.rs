//! Kinds of account snapshots seen by readers of the ledger.
use vstd::prelude::*;

verus! {

#[derive(Clone, Copy, Debug, PartialEq, Eq, Structural)]
pub enum SnapshotType {
    Full,
    Partial,
}

} // verus!
