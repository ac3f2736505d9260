//! One per-asset holding under average-acquisition-cost accounting.

use vstd::prelude::*;
use crate::error::LedgerError;
use crate::rat::{
    Rat, rat_zero, rat_add, rat_add_fits, rat_sub, rat_sub_fits, rat_mul, rat_mul_fits, rat_div,
    rat_div_fits, rat_nonneg, is_quotient_of,
};

verus! {

/// The average-cost invariant: whenever any units are held, the average
/// cost denotes exactly `total_cost / quantity`.
pub open spec fn consistent(p: Position) -> bool {
    p.quantity.num != 0 ==> is_quotient_of(p.average_cost, p.total_cost, p.quantity)
}

/// The running holding of one asset: a signed unit count, the aggregate
/// cost basis of those units, and the derived average cost per unit.
#[derive(Clone, Copy, Debug, PartialEq, Eq, Structural)]
pub struct Position {
    pub quantity: Rat,
    pub total_cost: Rat,
    pub average_cost: Rat,
}

/// The position a newly referenced asset starts from: everything zero.
pub open spec fn initial_position() -> Position {
    Position { quantity: rat_zero(), total_cost: rat_zero(), average_cost: rat_zero() }
}

/// The state an acquisition leaves behind: quantity grows by `quantity`,
/// cost basis grows by `operation_value`, and the average cost is
/// recomputed as `total_cost / quantity` (zero when the new quantity is
/// exactly zero, where the quotient is undefined).
pub open spec fn spec_acquire(p: Position, quantity: Rat, operation_value: Rat) -> Position {
    let qty = rat_add(p.quantity, quantity);
    let total = rat_add(p.total_cost, operation_value);
    let avg = if qty.num == 0 {
        rat_zero()
    } else {
        rat_div(total, qty)
    };
    Position { quantity: qty, total_cost: total, average_cost: avg }
}

/// Every exact value an acquisition computes fits into `i64` components.
pub open spec fn acquire_fits(p: Position, quantity: Rat, operation_value: Rat) -> bool {
    &&& rat_add_fits(p.quantity, quantity)
    &&& rat_add_fits(p.total_cost, operation_value)
    &&& (rat_add(p.quantity, quantity).num != 0 ==> rat_div_fits(
        rat_add(p.total_cost, operation_value),
        rat_add(p.quantity, quantity),
    ))
}

/// The realized profit a disposal reports: the spread between the disposal
/// unit price and the held average cost, scaled by the units disposed.
/// The operation value plays no part in it.
pub open spec fn spec_dispose_profit(p: Position, quantity: Rat, unit_price: Rat) -> Rat {
    rat_mul(rat_sub(unit_price, p.average_cost), quantity)
}

/// The state a disposal leaves behind: quantity shrinks by `quantity`; a
/// position closed to exactly zero units resets its cost basis and average
/// cost to zero, otherwise the cost basis shrinks by `operation_value` and
/// the average cost is recomputed over the remaining units.
pub open spec fn spec_dispose(p: Position, quantity: Rat, operation_value: Rat) -> Position {
    let qty = rat_sub(p.quantity, quantity);
    if qty.num == 0 {
        Position { quantity: qty, total_cost: rat_zero(), average_cost: rat_zero() }
    } else {
        let total = rat_sub(p.total_cost, operation_value);
        Position { quantity: qty, total_cost: total, average_cost: rat_div(total, qty) }
    }
}

/// Every exact value a disposal computes fits into `i64` components.
pub open spec fn dispose_fits(
    p: Position,
    quantity: Rat,
    unit_price: Rat,
    operation_value: Rat,
) -> bool {
    &&& rat_sub_fits(unit_price, p.average_cost)
    &&& rat_mul_fits(rat_sub(unit_price, p.average_cost), quantity)
    &&& rat_sub_fits(p.quantity, quantity)
    &&& (rat_sub(p.quantity, quantity).num != 0 ==> {
        &&& rat_sub_fits(p.total_cost, operation_value)
        &&& rat_div_fits(rat_sub(p.total_cost, operation_value), rat_sub(p.quantity, quantity))
    })
}

impl Position {
    /// All three components carry positive denominators.
    pub open spec fn wf(self) -> bool {
        self.quantity.wf() && self.total_cost.wf() && self.average_cost.wf()
    }

    /// An empty position.
    pub fn new() -> (p: Position)
        ensures
            p == initial_position(),
            p.wf(),
    {
        Position { quantity: Rat::zero(), total_cost: Rat::zero(), average_cost: Rat::zero() }
    }

    /// Add `quantity` units acquired for `operation_value` in total and
    /// recompute the average cost.  The unit price is carried by settlement
    /// records but plays no part in the update.  Fails, leaving the
    /// position untouched, exactly when an exact result would not fit.
    pub fn acquire(&mut self, quantity: Rat, _unit_price: Rat, operation_value: Rat) -> (r: Result<
        (),
        LedgerError,
    >)
        requires
            old(self).wf(),
            quantity.wf(),
            rat_nonneg(quantity),
            operation_value.wf(),
        ensures
            r is Ok <==> acquire_fits(*old(self), quantity, operation_value),
            r is Ok ==> *final(self) == spec_acquire(*old(self), quantity, operation_value)
                && final(self).wf(),
            r is Err ==> *final(self) == *old(self) && r == Err::<(), LedgerError>(
                LedgerError::ArithmeticOverflow,
            ),
    {
        let qty: Rat = match self.quantity.checked_add(quantity) {
            Some(v) => v,
            None => {
                return Err(LedgerError::ArithmeticOverflow);
            },
        };
        let total: Rat = match self.total_cost.checked_add(operation_value) {
            Some(v) => v,
            None => {
                return Err(LedgerError::ArithmeticOverflow);
            },
        };
        let avg: Rat = if qty.num == 0 {
            Rat::zero()
        } else {
            match total.checked_div(qty) {
                Some(v) => v,
                None => {
                    return Err(LedgerError::ArithmeticOverflow);
                },
            }
        };
        self.quantity = qty;
        self.total_cost = total;
        self.average_cost = avg;
        Ok(())
    }

    /// Remove `quantity` units sold at `unit_price` for `operation_value`
    /// in total proceeds, and return the realized profit
    /// `(unit_price - average_cost) * quantity`.  Disposing more units than
    /// held is permitted and leaves a negative quantity.  Fails, leaving
    /// the position untouched, exactly when an exact result would not fit.
    pub fn dispose(&mut self, quantity: Rat, unit_price: Rat, operation_value: Rat) -> (r: Result<
        Rat,
        LedgerError,
    >)
        requires
            old(self).wf(),
            quantity.wf(),
            unit_price.wf(),
            operation_value.wf(),
        ensures
            r is Ok <==> dispose_fits(*old(self), quantity, unit_price, operation_value),
            r is Ok ==> r == Ok::<Rat, LedgerError>(
                spec_dispose_profit(*old(self), quantity, unit_price),
            ) && *final(self) == spec_dispose(*old(self), quantity, operation_value)
                && final(self).wf() && spec_dispose_profit(*old(self), quantity, unit_price).wf(),
            r is Err ==> *final(self) == *old(self) && r == Err::<Rat, LedgerError>(
                LedgerError::ArithmeticOverflow,
            ),
    {
        let spread: Rat = match unit_price.checked_sub(self.average_cost) {
            Some(v) => v,
            None => {
                return Err(LedgerError::ArithmeticOverflow);
            },
        };
        let profit: Rat = match spread.checked_mul(quantity) {
            Some(v) => v,
            None => {
                return Err(LedgerError::ArithmeticOverflow);
            },
        };
        let qty: Rat = match self.quantity.checked_sub(quantity) {
            Some(v) => v,
            None => {
                return Err(LedgerError::ArithmeticOverflow);
            },
        };
        if qty.num == 0 {
            self.quantity = qty;
            self.total_cost = Rat::zero();
            self.average_cost = Rat::zero();
            Ok(profit)
        } else {
            let total: Rat = match self.total_cost.checked_sub(operation_value) {
                Some(v) => v,
                None => {
                    return Err(LedgerError::ArithmeticOverflow);
                },
            };
            let avg: Rat = match total.checked_div(qty) {
                Some(v) => v,
                None => {
                    return Err(LedgerError::ArithmeticOverflow);
                },
            };
            self.quantity = qty;
            self.total_cost = total;
            self.average_cost = avg;
            Ok(profit)
        }
    }

    /// Change the unit count without changing the cost basis, as a split,
    /// a bonus issue or a transfer-in does: an acquisition of
    /// `delta_quantity` units at no cost.
    pub fn unit_count_adjust(&mut self, delta_quantity: Rat) -> (r: Result<(), LedgerError>)
        requires
            old(self).wf(),
            delta_quantity.wf(),
            rat_nonneg(delta_quantity),
        ensures
            r is Ok <==> acquire_fits(*old(self), delta_quantity, rat_zero()),
            r is Ok ==> *final(self) == spec_acquire(*old(self), delta_quantity, rat_zero())
                && final(self).wf(),
            r is Err ==> *final(self) == *old(self) && r == Err::<(), LedgerError>(
                LedgerError::ArithmeticOverflow,
            ),
    {
        let zero: Rat = Rat::zero();
        self.acquire(delta_quantity, zero, zero)
    }
}

} // verus!
