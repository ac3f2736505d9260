//! Errors surfaced by the ledger engine.

use vstd::prelude::*;

verus! {

/// A hard failure while folding a movement record.
///
/// The missing-field variants mirror the engine's contract that settlement
/// movements always carry a unit price and an operation value; the overflow
/// variant reports that an exact rational result does not fit into `i64`
/// components.
#[derive(Clone, Copy, Debug, PartialEq, Eq, Structural)]
pub enum LedgerError {
    MissingUnitPrice,
    MissingOperationValue,
    ArithmeticOverflow,
}

} // verus!
