//! The ledger engine: a stateful fold of movement records into per-asset
//! positions and running totals.

use vstd::prelude::*;
use std::collections::HashMap;
use crate::error::LedgerError;
use crate::position::{
    Position, initial_position, spec_acquire, acquire_fits, spec_dispose, spec_dispose_profit,
    dispose_fits,
};
use crate::rat::{Rat, rat_zero, rat_add, rat_add_fits};
use crate::record::{Action, AssetId, Date, MovementRecord, action_of, spec_action_of};

verus! {

broadcast use vstd::std_specs::hash::group_hash_axioms;

/// A reporting event the engine emits while folding: one per disposal and
/// one per recorded cash distribution.
#[derive(Clone, Copy, Debug, PartialEq, Eq, Structural)]
pub enum LedgerEvent {
    Disposal { asset: AssetId, date: Date, profit: Rat },
    Distribution { asset: AssetId, date: Date, amount: Rat },
}

/// The engine's whole state as the specification sees it: the per-asset
/// position map and the two running totals.
pub type LedgerState = (Map<u64, Position>, Rat, Rat);

/// The position held for `key`, an empty one if the asset was never
/// referenced.
pub open spec fn position_of(positions: Map<u64, Position>, key: u64) -> Position {
    if positions.contains_key(key) {
        positions[key]
    } else {
        initial_position()
    }
}

/// What folding one record does to the engine state, and which reporting
/// event it emits.  A no-op still materializes the (unchanged) position of
/// the referenced asset, as lazy creation on first reference does.
pub open spec fn spec_apply(st: LedgerState, rec: MovementRecord) -> Result<
    (LedgerState, Option<LedgerEvent>),
    LedgerError,
> {
    let (positions, profit, dividends) = st;
    let k = rec.asset.code;
    let p0 = position_of(positions, k);
    match spec_action_of(rec.direction, rec.kind) {
        Action::Noop => Ok(((positions.insert(k, p0), profit, dividends), None)),
        Action::AdjustUnits => if acquire_fits(p0, rec.quantity, rat_zero()) {
            Ok(
                (
                    (
                        positions.insert(k, spec_acquire(p0, rec.quantity, rat_zero())),
                        profit,
                        dividends,
                    ),
                    None,
                ),
            )
        } else {
            Err(LedgerError::ArithmeticOverflow)
        },
        Action::Acquire => match (rec.unit_price, rec.operation_value) {
            (None, _) => Err(LedgerError::MissingUnitPrice),
            (Some(_), None) => Err(LedgerError::MissingOperationValue),
            (Some(_), Some(v)) => if acquire_fits(p0, rec.quantity, v) {
                Ok(
                    (
                        (positions.insert(k, spec_acquire(p0, rec.quantity, v)), profit, dividends),
                        None,
                    ),
                )
            } else {
                Err(LedgerError::ArithmeticOverflow)
            },
        },
        Action::Dispose => match (rec.unit_price, rec.operation_value) {
            (None, _) => Err(LedgerError::MissingUnitPrice),
            (Some(_), None) => Err(LedgerError::MissingOperationValue),
            (Some(p), Some(v)) => {
                let gain = spec_dispose_profit(p0, rec.quantity, p);
                if dispose_fits(p0, rec.quantity, p, v) && rat_add_fits(profit, gain) {
                    Ok(
                        (
                            (
                                positions.insert(k, spec_dispose(p0, rec.quantity, v)),
                                rat_add(profit, gain),
                                dividends,
                            ),
                            Some(
                                LedgerEvent::Disposal {
                                    asset: rec.asset,
                                    date: rec.date,
                                    profit: gain,
                                },
                            ),
                        ),
                    )
                } else {
                    Err(LedgerError::ArithmeticOverflow)
                }
            },
        },
        Action::RecordDistribution => match rec.operation_value {
            None => Ok(((positions.insert(k, p0), profit, dividends), None)),
            Some(v) => if rat_add_fits(dividends, v) {
                Ok(
                    (
                        (positions.insert(k, p0), profit, rat_add(dividends, v)),
                        Some(
                            LedgerEvent::Distribution { asset: rec.asset, date: rec.date, amount: v },
                        ),
                    ),
                )
            } else {
                Err(LedgerError::ArithmeticOverflow)
            },
        },
    }
}

/// What folding a whole chronological sequence of records does: the state
/// after every record, the emitted reporting events in order, or the first
/// hard failure.
pub open spec fn spec_apply_all(st: LedgerState, recs: Seq<MovementRecord>) -> Result<
    (LedgerState, Seq<LedgerEvent>),
    LedgerError,
>
    decreases recs.len(),
{
    if recs.len() == 0 {
        Ok((st, Seq::empty()))
    } else {
        match spec_apply_all(st, recs.drop_last()) {
            Err(e) => Err(e),
            Ok((st1, evs)) => match spec_apply(st1, recs.last()) {
                Err(e) => Err(e),
                Ok((st2, ev)) => Ok(
                    (
                        st2,
                        match ev {
                            Some(e) => evs.push(e),
                            None => evs,
                        },
                    ),
                ),
            },
        }
    }
}

/// A fold that fails on some prefix fails the same way on the whole
/// sequence: the first hard failure wins.
proof fn lemma_apply_all_err_extends(st: LedgerState, recs: Seq<MovementRecord>, m: int)
    requires
        0 <= m <= recs.len(),
        spec_apply_all(st, recs.take(m)) is Err,
    ensures
        spec_apply_all(st, recs) == spec_apply_all(st, recs.take(m)),
    decreases recs.len() - m,
{
    if m < recs.len() {
        assert(recs.take(m + 1).drop_last() =~= recs.take(m));
        lemma_apply_all_err_extends(st, recs, m + 1);
    } else {
        assert(recs.take(m) =~= recs);
    }
}

/// The ledger engine.  It owns the asset-to-position mapping and the two
/// run-wide totals; one call site holds it mutably and feeds it records in
/// chronological order.
pub struct Ledger {
    pub positions: HashMap<u64, Position>,
    pub profit: Rat,
    pub dividends: Rat,
}

impl Ledger {
    /// The engine state this ledger denotes.
    pub open spec fn state(self) -> LedgerState {
        (self.positions@, self.profit, self.dividends)
    }

    /// Every held position and both totals are well-formed.
    pub open spec fn wf(self) -> bool {
        &&& self.profit.wf()
        &&& self.dividends.wf()
        &&& forall|k: u64|
            self.positions@.contains_key(k) ==> (#[trigger] self.positions@[k]).wf()
    }

    /// An empty ledger: no positions, both totals zero.
    pub fn new() -> (l: Ledger)
        ensures
            l.state() == (Map::<u64, Position>::empty(), rat_zero(), rat_zero()),
            l.wf(),
    {
        Ledger { positions: HashMap::new(), profit: Rat::zero(), dividends: Rat::zero() }
    }

    /// Fold one movement record into the ledger, returning the reporting
    /// event it emits, if any.  On an error the ledger is left unchanged:
    /// a settlement record without its unit price or operation value is a
    /// contract violation, and an exact result that does not fit reports
    /// overflow.
    pub fn apply(&mut self, rec: &MovementRecord) -> (r: Result<Option<LedgerEvent>, LedgerError>)
        requires
            old(self).wf(),
            rec.wf(),
        ensures
            final(self).wf(),
            match spec_apply(old(self).state(), *rec) {
                Ok((st, ev)) => r == Ok::<Option<LedgerEvent>, LedgerError>(ev)
                    && final(self).state() == st,
                Err(e) => r == Err::<Option<LedgerEvent>, LedgerError>(e)
                    && *final(self) == *old(self),
            },
    {
        let k: u64 = rec.asset.code;
        let p0: Position = match self.positions.get(&k) {
            Some(p) => *p,
            None => Position::new(),
        };
        match action_of(rec.direction, rec.kind) {
            Action::Noop => {
                self.positions.insert(k, p0);
                Ok(None)
            },
            Action::AdjustUnits => {
                let mut p: Position = p0;
                match p.unit_count_adjust(rec.quantity) {
                    Ok(()) => {
                        self.positions.insert(k, p);
                        Ok(None)
                    },
                    Err(e) => Err(e),
                }
            },
            Action::Acquire => {
                let price: Rat = match rec.unit_price {
                    Some(p) => p,
                    None => {
                        return Err(LedgerError::MissingUnitPrice);
                    },
                };
                let value: Rat = match rec.operation_value {
                    Some(v) => v,
                    None => {
                        return Err(LedgerError::MissingOperationValue);
                    },
                };
                let mut p: Position = p0;
                match p.acquire(rec.quantity, price, value) {
                    Ok(()) => {
                        self.positions.insert(k, p);
                        Ok(None)
                    },
                    Err(e) => Err(e),
                }
            },
            Action::Dispose => {
                let price: Rat = match rec.unit_price {
                    Some(p) => p,
                    None => {
                        return Err(LedgerError::MissingUnitPrice);
                    },
                };
                let value: Rat = match rec.operation_value {
                    Some(v) => v,
                    None => {
                        return Err(LedgerError::MissingOperationValue);
                    },
                };
                let mut p: Position = p0;
                match p.dispose(rec.quantity, price, value) {
                    Ok(gain) => match self.profit.checked_add(gain) {
                        Some(np) => {
                            self.profit = np;
                            self.positions.insert(k, p);
                            Ok(
                                Some(
                                    LedgerEvent::Disposal {
                                        asset: rec.asset,
                                        date: rec.date,
                                        profit: gain,
                                    },
                                ),
                            )
                        },
                        None => Err(LedgerError::ArithmeticOverflow),
                    },
                    Err(e) => Err(e),
                }
            },
            Action::RecordDistribution => {
                match rec.operation_value {
                    None => {
                        self.positions.insert(k, p0);
                        Ok(None)
                    },
                    Some(v) => match self.dividends.checked_add(v) {
                        Some(nd) => {
                            self.dividends = nd;
                            self.positions.insert(k, p0);
                            Ok(
                                Some(
                                    LedgerEvent::Distribution {
                                        asset: rec.asset,
                                        date: rec.date,
                                        amount: v,
                                    },
                                ),
                            )
                        },
                        None => Err(LedgerError::ArithmeticOverflow),
                    },
                }
            },
        }
    }

    /// Fold a whole chronological sequence of records, returning the
    /// reporting events in emission order.  The fold stops at the first
    /// hard failure; the ledger then holds the fold of the records before
    /// the failing one.
    pub fn apply_all(&mut self, records: &Vec<MovementRecord>) -> (r: Result<
        Vec<LedgerEvent>,
        LedgerError,
    >)
        requires
            old(self).wf(),
            forall|i: int| 0 <= i < records@.len() ==> (#[trigger] records@[i]).wf(),
        ensures
            final(self).wf(),
            match spec_apply_all(old(self).state(), records@) {
                Ok((st, evs)) => final(self).state() == st && match r {
                    Ok(out) => out@ == evs,
                    Err(_) => false,
                },
                Err(e) => r == Err::<Vec<LedgerEvent>, LedgerError>(e) && exists|j: int|
                    #![trigger records@.take(j)]
                    {
                        &&& 0 <= j < records@.len()
                        &&& match spec_apply_all(old(self).state(), records@.take(j)) {
                            Ok((stj, _)) => final(self).state() == stj && spec_apply(
                                stj,
                                records@[j],
                            ) == Err::<(LedgerState, Option<LedgerEvent>), LedgerError>(e),
                            Err(_) => false,
                        }
                    },
            },
    {
        let ghost init: Ledger = *self;
        let mut events: Vec<LedgerEvent> = Vec::new();
        let mut i: usize = 0;
        while i < records.len()
            invariant
                init == *old(self),
                i <= records@.len(),
                self.wf(),
                forall|j: int| 0 <= j < records@.len() ==> (#[trigger] records@[j]).wf(),
                spec_apply_all(init.state(), records@.take(i as int)) == Ok::<
                    (LedgerState, Seq<LedgerEvent>),
                    LedgerError,
                >((self.state(), events@)),
            decreases records@.len() - i,
        {
            let ghost prefix: Seq<MovementRecord> = records@.take(i as int);
            let ghost st_before: LedgerState = self.state();
            let rec: &MovementRecord = &records[i];
            match self.apply(rec) {
                Ok(ev) => {
                    match ev {
                        Some(e) => events.push(e),
                        None => (),
                    }
                    proof {
                        assert(records@.take(i as int + 1).drop_last() =~= prefix);
                        assert(records@.take(i as int + 1).last() == records@[i as int]);
                    }
                    i = i + 1;
                },
                Err(e) => {
                    proof {
                        assert(spec_apply_all(init.state(), records@.take(i as int))
                            == Ok::<(LedgerState, Seq<LedgerEvent>), LedgerError>(
                            (st_before, events@),
                        ));
                        assert(records@.take(i as int + 1).drop_last() =~= prefix);
                        assert(records@.take(i as int + 1).last() == records@[i as int]);
                        assert(spec_apply_all(init.state(), records@.take(i as int + 1))
                            == Err::<(LedgerState, Seq<LedgerEvent>), LedgerError>(e));
                        lemma_apply_all_err_extends(init.state(), records@, i as int + 1);
                        assert(exists|j: int|
                            #![trigger records@.take(j)]
                            {
                                &&& 0 <= j < records@.len()
                                &&& match spec_apply_all(old(self).state(), records@.take(j)) {
                                    Ok((stj, _)) => self.state() == stj && spec_apply(
                                        stj,
                                        records@[j],
                                    ) == Err::<(LedgerState, Option<LedgerEvent>), LedgerError>(e),
                                    Err(_) => false,
                                }
                            });
                    }
                    return Err(e);
                },
            }
        }
        proof {
            assert(records@.take(records@.len() as int) =~= records@);
        }
        Ok(events)
    }
}

} // verus!
