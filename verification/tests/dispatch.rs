use cost_ledger::{Action, Direction, MoveKind};
use cost_ledger::record::action_of;

const ALL_KINDS: [MoveKind; 24] = [
    MoveKind::Revaluation,
    MoveKind::AssetBonus,
    MoveKind::RightsAssignment,
    MoveKind::RequestedRightsAssignment,
    MoveKind::BuySellSettlement,
    MoveKind::Split,
    MoveKind::SubscriptionRight,
    MoveKind::SubscriptionRightExercised,
    MoveKind::SubscriptionRightNotExercised,
    MoveKind::LeftoverSubscriptionRightNotExercised,
    MoveKind::Dividend,
    MoveKind::Loan,
    MoveKind::FractionalAsset,
    MoveKind::ReverseSplit,
    MoveKind::Merger,
    MoveKind::EquityInterest,
    MoveKind::FractionAuction,
    MoveKind::SubscriptionReceipt,
    MoveKind::Refund,
    MoveKind::Yield,
    MoveKind::SubscriptionRequest,
    MoveKind::Transfer,
    MoveKind::TransferSettlement,
    MoveKind::Maturity,
];

fn expected(direction: Direction, kind: MoveKind) -> Action {
    match (direction, kind) {
        (Direction::In, MoveKind::Split) => Action::AdjustUnits,
        (Direction::In, MoveKind::Transfer) => Action::AdjustUnits,
        (Direction::In, MoveKind::Dividend) => Action::RecordDistribution,
        (Direction::In, MoveKind::EquityInterest) => Action::RecordDistribution,
        (Direction::In, MoveKind::Yield) => Action::RecordDistribution,
        (Direction::In, MoveKind::TransferSettlement) => Action::Acquire,
        (Direction::Out, MoveKind::TransferSettlement) => Action::Dispose,
        _ => Action::Noop,
    }
}

/// Every (direction, kind) pair in the closed enumeration dispatches to
/// exactly one defined action, and to the intended one.
#[test]
fn dispatch_is_total_and_intentional() {
    let mut cells: usize = 0;
    for direction in [Direction::In, Direction::Out] {
        for kind in ALL_KINDS {
            assert_eq!(action_of(direction, kind), expected(direction, kind));
            cells += 1;
        }
    }
    assert_eq!(cells, 48);
}

/// The settlement kind is the only one that buys or sells; the incoming
/// buy/sell-settlement kind of this feed is an intentional no-op because
/// the trade feed already captures it.
#[test]
fn buy_sell_settlement_is_noop() {
    assert_eq!(action_of(Direction::In, MoveKind::BuySellSettlement), Action::Noop);
    assert_eq!(action_of(Direction::Out, MoveKind::BuySellSettlement), Action::Noop);
}
