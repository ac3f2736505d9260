//! Typed movement records and the (direction, kind) dispatch table.

use vstd::prelude::*;
use crate::rat::{Rat, rat_nonneg};

verus! {

/// Whether a movement credits units or cash to the account or debits them.
#[derive(Clone, Copy, Debug, PartialEq, Eq, Structural)]
pub enum Direction {
    In,
    Out,
}

/// The closed set of movement kinds a statement row can carry.
#[derive(Clone, Copy, Debug, PartialEq, Eq, Structural)]
pub enum MoveKind {
    Revaluation,
    AssetBonus,
    RightsAssignment,
    RequestedRightsAssignment,
    BuySellSettlement,
    Split,
    SubscriptionRight,
    SubscriptionRightExercised,
    SubscriptionRightNotExercised,
    LeftoverSubscriptionRightNotExercised,
    Dividend,
    Loan,
    FractionalAsset,
    ReverseSplit,
    Merger,
    EquityInterest,
    FractionAuction,
    SubscriptionReceipt,
    Refund,
    Yield,
    SubscriptionRequest,
    Transfer,
    TransferSettlement,
    Maturity,
}

/// An opaque key for one tradable instrument.  The decoder guarantees that
/// two raw labels naming the same tradable unit map to equal codes.
#[derive(Clone, Copy, Debug, PartialEq, Eq, Hash, Structural)]
pub struct AssetId {
    pub code: u64,
}

/// A calendar date as the decoder hands it over.  The engine never computes
/// on it; it only flows into reporting events.
#[derive(Clone, Copy, Debug, PartialEq, Eq, Structural)]
pub struct Date {
    pub year: i32,
    pub month: u8,
    pub day: u8,
}

/// One decoded ledger event, consumed exactly once, in chronological order.
#[derive(Clone, Copy, Debug, PartialEq, Eq, Structural)]
pub struct MovementRecord {
    pub direction: Direction,
    pub date: Date,
    pub kind: MoveKind,
    pub asset: AssetId,
    pub quantity: Rat,
    pub unit_price: Option<Rat>,
    pub operation_value: Option<Rat>,
}

/// A well-formed optional amount.
pub open spec fn opt_rat_wf(o: Option<Rat>) -> bool {
    match o {
        Some(r) => r.wf(),
        None => true,
    }
}

impl MovementRecord {
    /// What the decoder guarantees of every record it emits: well-formed
    /// amounts and a non-negative quantity.
    pub open spec fn wf(self) -> bool {
        &&& self.quantity.wf()
        &&& rat_nonneg(self.quantity)
        &&& opt_rat_wf(self.unit_price)
        &&& opt_rat_wf(self.operation_value)
    }
}

/// The accounting action a (direction, kind) pair dispatches to.
#[derive(Clone, Copy, Debug, PartialEq, Eq, Structural)]
pub enum Action {
    Noop,
    Acquire,
    Dispose,
    AdjustUnits,
    RecordDistribution,
}

/// The dispatch table: a total mapping from every (direction, kind) pair in
/// the closed enumeration to one intentional accounting action.  Most cells
/// are deliberate no-ops: buy/sell settlement rows are already captured by
/// the separate trade feed, and the incoming subscription-right, receipt
/// and merger kinds are documented gaps, not omissions.
pub open spec fn spec_action_of(direction: Direction, kind: MoveKind) -> Action {
    match (direction, kind) {
        (Direction::In, MoveKind::Revaluation) => Action::Noop,
        (Direction::In, MoveKind::AssetBonus) => Action::Noop,
        (Direction::In, MoveKind::RightsAssignment) => Action::Noop,
        (Direction::In, MoveKind::RequestedRightsAssignment) => Action::Noop,
        (Direction::In, MoveKind::BuySellSettlement) => Action::Noop,
        (Direction::In, MoveKind::Split) => Action::AdjustUnits,
        (Direction::In, MoveKind::SubscriptionRight) => Action::Noop,
        (Direction::In, MoveKind::SubscriptionRightExercised) => Action::Noop,
        (Direction::In, MoveKind::SubscriptionRightNotExercised) => Action::Noop,
        (Direction::In, MoveKind::LeftoverSubscriptionRightNotExercised) => Action::Noop,
        (Direction::In, MoveKind::Dividend) => Action::RecordDistribution,
        (Direction::In, MoveKind::Loan) => Action::Noop,
        (Direction::In, MoveKind::FractionalAsset) => Action::Noop,
        (Direction::In, MoveKind::ReverseSplit) => Action::Noop,
        (Direction::In, MoveKind::Merger) => Action::Noop,
        (Direction::In, MoveKind::EquityInterest) => Action::RecordDistribution,
        (Direction::In, MoveKind::FractionAuction) => Action::Noop,
        (Direction::In, MoveKind::SubscriptionReceipt) => Action::Noop,
        (Direction::In, MoveKind::Refund) => Action::Noop,
        (Direction::In, MoveKind::Yield) => Action::RecordDistribution,
        (Direction::In, MoveKind::SubscriptionRequest) => Action::Noop,
        (Direction::In, MoveKind::Transfer) => Action::AdjustUnits,
        (Direction::In, MoveKind::TransferSettlement) => Action::Acquire,
        (Direction::In, MoveKind::Maturity) => Action::Noop,
        (Direction::Out, MoveKind::Revaluation) => Action::Noop,
        (Direction::Out, MoveKind::AssetBonus) => Action::Noop,
        (Direction::Out, MoveKind::RightsAssignment) => Action::Noop,
        (Direction::Out, MoveKind::RequestedRightsAssignment) => Action::Noop,
        (Direction::Out, MoveKind::BuySellSettlement) => Action::Noop,
        (Direction::Out, MoveKind::Split) => Action::Noop,
        (Direction::Out, MoveKind::SubscriptionRight) => Action::Noop,
        (Direction::Out, MoveKind::SubscriptionRightExercised) => Action::Noop,
        (Direction::Out, MoveKind::SubscriptionRightNotExercised) => Action::Noop,
        (Direction::Out, MoveKind::LeftoverSubscriptionRightNotExercised) => Action::Noop,
        (Direction::Out, MoveKind::Dividend) => Action::Noop,
        (Direction::Out, MoveKind::Loan) => Action::Noop,
        (Direction::Out, MoveKind::FractionalAsset) => Action::Noop,
        (Direction::Out, MoveKind::ReverseSplit) => Action::Noop,
        (Direction::Out, MoveKind::Merger) => Action::Noop,
        (Direction::Out, MoveKind::EquityInterest) => Action::Noop,
        (Direction::Out, MoveKind::FractionAuction) => Action::Noop,
        (Direction::Out, MoveKind::SubscriptionReceipt) => Action::Noop,
        (Direction::Out, MoveKind::Refund) => Action::Noop,
        (Direction::Out, MoveKind::Yield) => Action::Noop,
        (Direction::Out, MoveKind::SubscriptionRequest) => Action::Noop,
        (Direction::Out, MoveKind::Transfer) => Action::Noop,
        (Direction::Out, MoveKind::TransferSettlement) => Action::Dispose,
        (Direction::Out, MoveKind::Maturity) => Action::Noop,
    }
}

/// Dispatch one (direction, kind) pair.  The match is exhaustive over the
/// closed enumeration, so no pair is unhandled.
pub fn action_of(direction: Direction, kind: MoveKind) -> (a: Action)
    ensures
        a == spec_action_of(direction, kind),
{
    match (direction, kind) {
        (Direction::In, MoveKind::Split) => Action::AdjustUnits,
        (Direction::In, MoveKind::Transfer) => Action::AdjustUnits,
        (Direction::In, MoveKind::Dividend) => Action::RecordDistribution,
        (Direction::In, MoveKind::EquityInterest) => Action::RecordDistribution,
        (Direction::In, MoveKind::Yield) => Action::RecordDistribution,
        (Direction::In, MoveKind::TransferSettlement) => Action::Acquire,
        (Direction::Out, MoveKind::TransferSettlement) => Action::Dispose,
        _ => Action::Noop,
    }
}

} // verus!
