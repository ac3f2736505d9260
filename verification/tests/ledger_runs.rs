use cost_ledger::{
    AssetId, Date, Direction, Ledger, LedgerError, LedgerEvent, MoveKind, MovementRecord, Rat,
};

fn date(year: i32, month: u8, day: u8) -> Date {
    Date { year, month, day }
}

fn record(
    direction: Direction,
    kind: MoveKind,
    asset: u64,
    quantity: Rat,
    unit_price: Option<Rat>,
    operation_value: Option<Rat>,
) -> MovementRecord {
    MovementRecord {
        direction,
        date: date(2023, 6, 15),
        kind,
        asset: AssetId { code: asset },
        quantity,
        unit_price,
        operation_value,
    }
}

fn settlement_in(asset: u64, quantity: i64, unit_price: i64, operation_value: i64) -> MovementRecord {
    record(
        Direction::In,
        MoveKind::TransferSettlement,
        asset,
        Rat::from_int(quantity),
        Some(Rat::from_int(unit_price)),
        Some(Rat::from_int(operation_value)),
    )
}

fn settlement_out(asset: u64, quantity: i64, unit_price: i64, operation_value: i64) -> MovementRecord {
    record(
        Direction::Out,
        MoveKind::TransferSettlement,
        asset,
        Rat::from_int(quantity),
        Some(Rat::from_int(unit_price)),
        Some(Rat::from_int(operation_value)),
    )
}

fn position(ledger: &Ledger, asset: u64) -> cost_ledger::Position {
    *ledger.positions.get(&asset).expect("position exists")
}

/// Acquire 10 units at total cost 1000 (average 100); dispose 4 at unit
/// price 150: profit 200, 6 units remain, and the cost basis drops by the
/// sale's operation value.
#[test]
fn scenario_partial_disposal() {
    let mut ledger = Ledger::new();
    ledger.apply(&settlement_in(1, 10, 100, 1000)).unwrap();
    let ev = ledger.apply(&settlement_out(1, 4, 150, 600)).unwrap();
    match ev {
        Some(LedgerEvent::Disposal { profit, .. }) => {
            assert!(profit.same_value(Rat::from_int(200)))
        },
        other => panic!("expected a disposal event, got {:?}", other),
    }
    assert!(ledger.profit.same_value(Rat::from_int(200)));
    let p = position(&ledger, 1);
    assert!(p.quantity.same_value(Rat::from_int(6)));
    assert!(p.total_cost.same_value(Rat::from_int(400)));
}

/// Acquire 10 at total 1000, then a split doubles the unit count: quantity
/// 20, total cost still 1000, average cost 50.
#[test]
fn scenario_split_doubles_units() {
    let mut ledger = Ledger::new();
    ledger.apply(&settlement_in(7, 10, 100, 1000)).unwrap();
    let ev = ledger
        .apply(&record(Direction::In, MoveKind::Split, 7, Rat::from_int(10), None, None))
        .unwrap();
    assert!(ev.is_none());
    let p = position(&ledger, 7);
    assert!(p.quantity.same_value(Rat::from_int(20)));
    assert!(p.total_cost.same_value(Rat::from_int(1000)));
    assert!(p.average_cost.same_value(Rat::from_int(50)));
}

/// Two dividends of 5.0 and 3.25 accumulate to 8.25; a dividend without an
/// operation value is skipped silently and contributes nothing.
#[test]
fn scenario_dividends_accumulate() {
    let mut ledger = Ledger::new();
    let div = |value: Option<Rat>| {
        record(Direction::In, MoveKind::Dividend, 3, Rat::zero(), None, value)
    };
    let ev1 = ledger.apply(&div(Some(Rat::from_int(5)))).unwrap();
    assert!(matches!(ev1, Some(LedgerEvent::Distribution { .. })));
    let ev2 = ledger.apply(&div(Some(Rat::new(325, 100)))).unwrap();
    assert!(matches!(ev2, Some(LedgerEvent::Distribution { .. })));
    let ev3 = ledger.apply(&div(None)).unwrap();
    assert!(ev3.is_none());
    assert!(ledger.dividends.same_value(Rat::new(825, 100)));
    assert!(ledger.profit.same_value(Rat::zero()));
}

/// Full lifecycle: acquire 10 at average 100, dispose all 10 at price 120:
/// profit 200, position fully reset.
#[test]
fn scenario_full_lifecycle() {
    let mut ledger = Ledger::new();
    ledger.apply(&settlement_in(4, 10, 100, 1000)).unwrap();
    let ev = ledger.apply(&settlement_out(4, 10, 120, 1200)).unwrap();
    match ev {
        Some(LedgerEvent::Disposal { profit, .. }) => {
            assert!(profit.same_value(Rat::from_int(200)))
        },
        other => panic!("expected a disposal event, got {:?}", other),
    }
    assert!(ledger.profit.same_value(Rat::from_int(200)));
    let p = position(&ledger, 4);
    assert!(p.quantity.is_zero());
    assert!(p.total_cost.is_zero());
    assert!(p.average_cost.is_zero());
}

/// The equity-interest and yield kinds record distributions exactly like
/// dividends, on the incoming direction only.
#[test]
fn equity_interest_and_yield_are_distributions() {
    let mut ledger = Ledger::new();
    ledger
        .apply(&record(
            Direction::In,
            MoveKind::EquityInterest,
            9,
            Rat::zero(),
            None,
            Some(Rat::from_int(7)),
        ))
        .unwrap();
    ledger
        .apply(&record(
            Direction::In,
            MoveKind::Yield,
            9,
            Rat::zero(),
            None,
            Some(Rat::from_int(5)),
        ))
        .unwrap();
    // The same kinds on the outgoing direction are no-ops.
    ledger
        .apply(&record(
            Direction::Out,
            MoveKind::Yield,
            9,
            Rat::zero(),
            None,
            Some(Rat::from_int(50)),
        ))
        .unwrap();
    assert!(ledger.dividends.same_value(Rat::from_int(12)));
}

/// An incoming transfer adjusts the unit count at no cost.
#[test]
fn transfer_in_adds_units_at_no_cost() {
    let mut ledger = Ledger::new();
    ledger.apply(&settlement_in(2, 10, 100, 1000)).unwrap();
    ledger
        .apply(&record(Direction::In, MoveKind::Transfer, 2, Rat::from_int(5), None, None))
        .unwrap();
    let p = position(&ledger, 2);
    assert!(p.quantity.same_value(Rat::from_int(15)));
    assert!(p.total_cost.same_value(Rat::from_int(1000)));
}

/// A settlement without its unit price or operation value is a hard
/// failure naming the missing field, and leaves the ledger unchanged.
#[test]
fn missing_settlement_fields_are_fatal() {
    let mut ledger = Ledger::new();
    let no_price = record(
        Direction::In,
        MoveKind::TransferSettlement,
        5,
        Rat::from_int(1),
        None,
        Some(Rat::from_int(10)),
    );
    assert_eq!(ledger.apply(&no_price), Err(LedgerError::MissingUnitPrice));
    let no_value = record(
        Direction::Out,
        MoveKind::TransferSettlement,
        5,
        Rat::from_int(1),
        Some(Rat::from_int(10)),
        None,
    );
    assert_eq!(ledger.apply(&no_value), Err(LedgerError::MissingOperationValue));
    assert!(ledger.positions.is_empty());
    assert!(ledger.profit.is_zero());
}

/// No-op kinds still materialize an empty position for the asset, as lazy
/// creation on first reference does, and change nothing else.
#[test]
fn noop_kinds_only_materialize_the_position() {
    let mut ledger = Ledger::new();
    let ev = ledger
        .apply(&record(
            Direction::Out,
            MoveKind::Maturity,
            11,
            Rat::from_int(3),
            None,
            Some(Rat::from_int(100)),
        ))
        .unwrap();
    assert!(ev.is_none());
    let p = position(&ledger, 11);
    assert!(p.quantity.is_zero());
    assert!(p.total_cost.is_zero());
    assert!(ledger.profit.is_zero());
    assert!(ledger.dividends.is_zero());
}

/// A whole chronological run through apply_all: events come out in order
/// and the totals match folding record by record.
#[test]
fn apply_all_matches_stepwise_fold() {
    let records = vec![
        settlement_in(1, 10, 100, 1000),
        record(Direction::In, MoveKind::Dividend, 1, Rat::zero(), None, Some(Rat::from_int(5))),
        settlement_out(1, 4, 150, 600),
        record(Direction::In, MoveKind::Split, 1, Rat::from_int(6), None, None),
        settlement_out(1, 12, 50, 600),
    ];
    let mut whole = Ledger::new();
    let events = whole.apply_all(&records).unwrap();

    let mut stepwise = Ledger::new();
    let mut expected_events = Vec::new();
    for r in &records {
        if let Some(ev) = stepwise.apply(r).unwrap() {
            expected_events.push(ev);
        }
    }
    assert_eq!(events, expected_events);
    assert_eq!(events.len(), 3);
    assert_eq!(whole.profit, stepwise.profit);
    assert_eq!(whole.dividends, stepwise.dividends);
    // Acquire at avg 100, sell 4 @ 150 (+200); split to 12 units lowers the
    // average to 400/12; sell all 12 @ 50 realizes 600 - 400 = +200.
    assert!(whole.profit.same_value(Rat::from_int(400)));
    assert!(whole.dividends.same_value(Rat::from_int(5)));
    let p = *whole.positions.get(&1).unwrap();
    assert!(p.quantity.is_zero());
    assert!(p.total_cost.is_zero());
}

/// apply_all stops at the first hard failure and reports it.
#[test]
fn apply_all_stops_at_first_failure() {
    let records = vec![
        settlement_in(1, 10, 100, 1000),
        record(Direction::In, MoveKind::TransferSettlement, 1, Rat::from_int(1), None, None),
        settlement_in(1, 10, 100, 1000),
    ];
    let mut ledger = Ledger::new();
    assert_eq!(ledger.apply_all(&records), Err(LedgerError::MissingUnitPrice));
    // The fold of the error-free prefix is in place.
    let p = *ledger.positions.get(&1).unwrap();
    assert!(p.quantity.same_value(Rat::from_int(10)));
}
