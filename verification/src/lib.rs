//! Average-acquisition-cost position ledger.
//!
//! The crate folds a chronological stream of typed brokerage movement
//! records into per-asset positions, realized profit and accumulated
//! distribution income.  All monetary amounts and unit counts are exact
//! rational numbers, so the average-cost invariant and the realized-profit
//! formula are stated and proved exactly.

pub mod error;
pub mod laws;
pub mod ledger;
pub mod position;
pub mod rat;
pub mod record;

pub use error::LedgerError;
pub use ledger::{Ledger, LedgerEvent};
pub use position::Position;
pub use rat::Rat;
pub use record::{Action, AssetId, Date, Direction, MoveKind, MovementRecord};
