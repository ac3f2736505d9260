//! The laws the engine obeys, stated and proved once for all inputs.

use vstd::prelude::*;
use crate::ledger::{LedgerState, position_of, spec_apply};
use crate::position::{
    Position, initial_position, spec_acquire, acquire_fits, spec_dispose, spec_dispose_profit,
    dispose_fits, consistent,
};
use crate::rat::{
    Rat, rat_zero, rat_add, rat_sub, rat_sub_fits, rat_mul_fits, rat_div, rat_nonneg,
    is_quotient_of, lemma_div_is_quotient, lemma_pos_mul_pos,
};
use crate::record::{Action, Direction, MoveKind, MovementRecord, spec_action_of};

verus! {

/// One acquisition preserves the average-cost invariant: afterwards the
/// average cost denotes exactly `total_cost / quantity` whenever any units
/// are held.
pub proof fn lemma_acquire_keeps_invariant(p: Position, quantity: Rat, operation_value: Rat)
    requires
        p.wf(),
        quantity.wf(),
        operation_value.wf(),
        acquire_fits(p, quantity, operation_value),
    ensures
        spec_acquire(p, quantity, operation_value).wf(),
        consistent(spec_acquire(p, quantity, operation_value)),
{
    let qty = rat_add(p.quantity, quantity);
    let total = rat_add(p.total_cost, operation_value);
    lemma_pos_mul_pos(p.quantity.den as int, quantity.den as int);
    lemma_pos_mul_pos(p.total_cost.den as int, operation_value.den as int);
    if qty.num != 0 {
        lemma_div_is_quotient(total, qty);
    }
}

/// One disposal preserves the average-cost invariant as well.
pub proof fn lemma_dispose_keeps_invariant(
    p: Position,
    quantity: Rat,
    unit_price: Rat,
    operation_value: Rat,
)
    requires
        p.wf(),
        quantity.wf(),
        unit_price.wf(),
        operation_value.wf(),
        dispose_fits(p, quantity, unit_price, operation_value),
    ensures
        spec_dispose(p, quantity, operation_value).wf(),
        consistent(spec_dispose(p, quantity, operation_value)),
{
    let qty = rat_sub(p.quantity, quantity);
    let total = rat_sub(p.total_cost, operation_value);
    lemma_pos_mul_pos(p.quantity.den as int, quantity.den as int);
    if qty.num != 0 {
        lemma_pos_mul_pos(p.total_cost.den as int, operation_value.den as int);
        lemma_div_is_quotient(total, qty);
    }
}

/// The quantities acquired in a sequence of acquisitions, in order.
pub open spec fn acquired_quantities(ops: Seq<(Rat, Rat)>) -> Seq<Rat> {
    ops.map(|i: int, op: (Rat, Rat)| op.0)
}

/// The position a sequence of (quantity, operation value) acquisitions
/// leaves behind, starting from `p`.
pub open spec fn fold_acquire(p: Position, ops: Seq<(Rat, Rat)>) -> Position
    decreases ops.len(),
{
    if ops.len() == 0 {
        p
    } else {
        spec_acquire(fold_acquire(p, ops.drop_last()), ops.last().0, ops.last().1)
    }
}

/// Every intermediate acquisition result fits into `i64` components.
pub open spec fn fold_acquire_fits(p: Position, ops: Seq<(Rat, Rat)>) -> bool
    decreases ops.len(),
{
    if ops.len() == 0 {
        true
    } else {
        fold_acquire_fits(p, ops.drop_last()) && acquire_fits(
            fold_acquire(p, ops.drop_last()),
            ops.last().0,
            ops.last().1,
        )
    }
}

/// Each acquisition is well-formed: a non-negative quantity and amounts
/// with positive denominators.
pub open spec fn acquire_ops_wf(ops: Seq<(Rat, Rat)>) -> bool {
    forall|i: int|
        0 <= i < ops.len() ==> (#[trigger] ops[i]).0.wf() && rat_nonneg(ops[i].0) && ops[i].1.wf()
}

/// The sum of a sequence of rationals, folded left to right.
pub open spec fn rat_sum(s: Seq<Rat>) -> Rat
    decreases s.len(),
{
    if s.len() == 0 {
        rat_zero()
    } else {
        rat_add(rat_sum(s.drop_last()), s.last())
    }
}

/// For every sequence of acquisitions starting from an empty position:
/// after each call the average cost denotes exactly
/// `total_cost / quantity` (whenever any units are held), and the final
/// quantity is exactly the sum of all acquired quantities.
pub proof fn lemma_acquire_sequence(ops: Seq<(Rat, Rat)>)
    requires
        acquire_ops_wf(ops),
        fold_acquire_fits(initial_position(), ops),
    ensures
        fold_acquire(initial_position(), ops).wf(),
        forall|i: int|
            0 <= i <= ops.len() ==> consistent(
                #[trigger] fold_acquire(initial_position(), ops.take(i)),
            ),
        fold_acquire(initial_position(), ops).quantity == rat_sum(acquired_quantities(ops)),
    decreases ops.len(),
{
    if ops.len() == 0 {
        assert(ops.take(0) =~= ops);
        assert(acquired_quantities(ops) =~= Seq::<Rat>::empty());
        assert(fold_acquire(initial_position(), ops) == initial_position());
    } else {
        let pre = ops.drop_last();
        assert(acquire_ops_wf(pre)) by {
            assert(forall|i: int| 0 <= i < pre.len() ==> pre[i] == #[trigger] ops[i]);
        }
        lemma_acquire_sequence(pre);
        lemma_acquire_keeps_invariant(fold_acquire(initial_position(), pre), ops.last().0,
            ops.last().1);
        assert(forall|i: int|
            0 <= i <= ops.len() ==> consistent(
                #[trigger] fold_acquire(initial_position(), ops.take(i)),
            )) by {
            assert(forall|i: int| 0 <= i < ops.len() ==> ops.take(i) =~= pre.take(i));
            assert(ops.take(ops.len() as int) =~= ops);
        }
        assert(acquired_quantities(ops).drop_last() =~= acquired_quantities(pre));
        assert(acquired_quantities(ops).last() == ops.last().0);
    }
}

/// The disposal profit law: a disposal of `quantity` units at `unit_price`
/// reports exactly `(unit_price - average_cost) * quantity`.  The operation
/// value passed along with the disposal plays no part in the profit, which
/// is why `spec_dispose_profit` does not take one.
pub proof fn lemma_dispose_profit_formula(p: Position, quantity: Rat, unit_price: Rat)
    requires
        p.wf(),
        quantity.wf(),
        unit_price.wf(),
        rat_sub_fits(unit_price, p.average_cost),
        rat_mul_fits(rat_sub(unit_price, p.average_cost), quantity),
    ensures
        ({
            let profit = spec_dispose_profit(p, quantity, unit_price);
            &&& profit.num == (unit_price.num * p.average_cost.den - p.average_cost.num
                * unit_price.den) * quantity.num
            &&& profit.den == (unit_price.den * p.average_cost.den) * quantity.den
        }),
{
}

/// The full-close reset law: disposing exactly the currently held quantity
/// resets the cost basis and the average cost to zero, whatever operation
/// value the disposal carries.
pub proof fn lemma_full_close_resets(p: Position, quantity: Rat, v1: Rat, v2: Rat)
    requires
        rat_sub(p.quantity, quantity).num == 0,
    ensures
        spec_dispose(p, quantity, v1).quantity.num == 0,
        spec_dispose(p, quantity, v1).total_cost == rat_zero(),
        spec_dispose(p, quantity, v1).average_cost == rat_zero(),
        spec_dispose(p, quantity, v1) == spec_dispose(p, quantity, v2),
{
}

/// The partial-close law: disposing fewer units than held reduces the cost
/// basis by exactly the operation value and recomputes the average cost as
/// `(total_cost - operation_value) / (quantity - disposed)`.
pub proof fn lemma_partial_close(p: Position, quantity: Rat, unit_price: Rat, operation_value: Rat)
    requires
        p.wf(),
        quantity.wf(),
        unit_price.wf(),
        operation_value.wf(),
        dispose_fits(p, quantity, unit_price, operation_value),
        rat_sub(p.quantity, quantity).num != 0,
    ensures
        spec_dispose(p, quantity, operation_value).quantity == rat_sub(p.quantity, quantity),
        spec_dispose(p, quantity, operation_value).total_cost == rat_sub(
            p.total_cost,
            operation_value,
        ),
        is_quotient_of(
            spec_dispose(p, quantity, operation_value).average_cost,
            rat_sub(p.total_cost, operation_value),
            rat_sub(p.quantity, quantity),
        ),
{
    let qty = rat_sub(p.quantity, quantity);
    let total = rat_sub(p.total_cost, operation_value);
    lemma_pos_mul_pos(p.total_cost.den as int, operation_value.den as int);
    lemma_pos_mul_pos(p.quantity.den as int, quantity.den as int);
    lemma_div_is_quotient(total, qty);
}

/// The split-neutrality law: a unit-count adjustment (an acquisition at no
/// cost) grows the quantity, leaves the cost basis unchanged, and lowers
/// the average cost exactly in proportion: the product
/// `average_cost * quantity` denotes the same rational before and after.
pub proof fn lemma_unit_count_adjust_neutral(p: Position, delta_quantity: Rat)
    requires
        p.wf(),
        delta_quantity.wf(),
        acquire_fits(p, delta_quantity, rat_zero()),
    ensures
        spec_acquire(p, delta_quantity, rat_zero()).total_cost == p.total_cost,
        spec_acquire(p, delta_quantity, rat_zero()).quantity == rat_add(p.quantity, delta_quantity),
        consistent(p) && p.quantity.num != 0 && rat_add(p.quantity, delta_quantity).num != 0 ==> ({
            let after = spec_acquire(p, delta_quantity, rat_zero());
            (after.average_cost.num * after.quantity.num) * (p.average_cost.den * p.quantity.den)
                == (p.average_cost.num * p.quantity.num) * (after.average_cost.den
                * after.quantity.den)
        }),
{
    let qty = rat_add(p.quantity, delta_quantity);
    let total = rat_add(p.total_cost, rat_zero());
    assert(total == p.total_cost);
    lemma_pos_mul_pos(p.quantity.den as int, delta_quantity.den as int);
    if consistent(p) && p.quantity.num != 0 && qty.num != 0 {
        let avg1 = rat_div(p.total_cost, qty);
        lemma_div_is_quotient(p.total_cost, qty);
        // Cross-multiplied hypotheses:
        //   avg1 * qty == total_cost            (fresh quotient)
        //   avg0 * quantity == total_cost       (invariant on entry)
        // Multiply both goals by the positive denominator of total_cost
        // and cancel.
        let a1n: int = avg1.num as int;
        let a1d: int = avg1.den as int;
        let q1n: int = qty.num as int;
        let q1d: int = qty.den as int;
        let a0n: int = p.average_cost.num as int;
        let a0d: int = p.average_cost.den as int;
        let q0n: int = p.quantity.num as int;
        let q0d: int = p.quantity.den as int;
        let tn: int = p.total_cost.num as int;
        let td: int = p.total_cost.den as int;
        assert(((a1n * q1n) * (a0d * q0d)) * td == ((a1n * td) * q1n) * (a0d * q0d))
            by (nonlinear_arith);
        assert(((a1n * td) * q1n) * (a0d * q0d) == ((tn * q1d) * a1d) * (a0d * q0d));
        assert(((tn * q1d) * a1d) * (a0d * q0d) == ((tn * q0d) * a0d) * (a1d * q1d))
            by (nonlinear_arith);
        assert(((tn * q0d) * a0d) * (a1d * q1d) == ((a0n * td) * q0n) * (a1d * q1d));
        assert(((a0n * td) * q0n) * (a1d * q1d) == ((a0n * q0n) * (a1d * q1d)) * td)
            by (nonlinear_arith);
        assert((a1n * q1n) * (a0d * q0d) == (a0n * q0n) * (a1d * q1d)) by (nonlinear_arith)
            requires
                ((a1n * q1n) * (a0d * q0d)) * td == ((a0n * q0n) * (a1d * q1d)) * td,
                td > 0,
        ;
    }
}

/// Every position in an engine state is well-formed and obeys the
/// average-cost invariant.
pub open spec fn state_consistent(st: LedgerState) -> bool {
    forall|k: u64|
        st.0.contains_key(k) ==> (#[trigger] st.0[k]).wf() && consistent(st.0[k])
}

/// Folding a record never mutates an unrelated position: every asset other
/// than the one the record names keeps exactly the position it had.
pub proof fn lemma_apply_touches_only_its_asset(st: LedgerState, rec: MovementRecord, other: u64)
    requires
        other != rec.asset.code,
    ensures
        match spec_apply(st, rec) {
            Ok((st1, _)) => st1.0.contains_key(other) == st.0.contains_key(other) && (
            st.0.contains_key(other) ==> st1.0[other] == st.0[other]),
            Err(_) => true,
        },
{
}

/// The average-cost invariant holds immediately after every mutation: if
/// every position obeys it before a record is folded, every position obeys
/// it afterwards, whichever accounting action the record dispatches to.
pub proof fn lemma_apply_keeps_consistency(st: LedgerState, rec: MovementRecord)
    requires
        rec.wf(),
        state_consistent(st),
    ensures
        match spec_apply(st, rec) {
            Ok((st1, _)) => state_consistent(st1),
            Err(_) => true,
        },
{
    let k = rec.asset.code;
    let p0 = position_of(st.0, k);
    assert(p0.wf() && consistent(p0));
    match spec_action_of(rec.direction, rec.kind) {
        Action::Noop => {},
        Action::AdjustUnits => {
            if acquire_fits(p0, rec.quantity, rat_zero()) {
                lemma_acquire_keeps_invariant(p0, rec.quantity, rat_zero());
            }
        },
        Action::Acquire => {
            if rec.unit_price is Some && rec.operation_value is Some {
                let v = rec.operation_value.unwrap();
                if acquire_fits(p0, rec.quantity, v) {
                    lemma_acquire_keeps_invariant(p0, rec.quantity, v);
                }
            }
        },
        Action::Dispose => {
            if rec.unit_price is Some && rec.operation_value is Some {
                let p = rec.unit_price.unwrap();
                let v = rec.operation_value.unwrap();
                if dispose_fits(p0, rec.quantity, p, v) {
                    lemma_dispose_keeps_invariant(p0, rec.quantity, p, v);
                }
            }
        },
        Action::RecordDistribution => {},
    }
}

/// The dispatch-completeness law: the dispatch table is a total function on
/// the closed (direction, kind) enumeration — the match in
/// `spec_action_of` covers every pair — and each of the four accounting
/// actions is taken on exactly the pairs listed here; every other pair is
/// an intentional no-op.
pub proof fn lemma_dispatch_table(direction: Direction, kind: MoveKind)
    ensures
        spec_action_of(direction, kind) == Action::Acquire <==> direction == Direction::In && kind
            == MoveKind::TransferSettlement,
        spec_action_of(direction, kind) == Action::Dispose <==> direction == Direction::Out && kind
            == MoveKind::TransferSettlement,
        spec_action_of(direction, kind) == Action::AdjustUnits <==> direction == Direction::In && (
        kind == MoveKind::Split || kind == MoveKind::Transfer),
        spec_action_of(direction, kind) == Action::RecordDistribution <==> direction
            == Direction::In && (kind == MoveKind::Dividend || kind == MoveKind::EquityInterest
            || kind == MoveKind::Yield),
{
}

} // verus!
