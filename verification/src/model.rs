//! The cost model proper: operation kinds, calibrated linear cost formulas,
//! one-time registration, and the saturating linear evaluator.
//!
//! A `CostModelBuilder` accepts each kind's formula exactly once during the
//! single-threaded initialization phase; `build` freezes it into a
//! `CostModel`, which exposes no mutation and whose `estimate` is a pure
//! function of the registered table and the call's inputs.

use vstd::prelude::*;

use crate::saturating::{sat_add, sat_mul, sat_add_u64, sat_mul_u64};

verus! {

/// The closed set of operation kinds this model meters: the proxy-related
/// actions of the surrounding state-transition engine.
#[derive(Clone, Copy, PartialEq, Eq, Structural, Debug)]
pub enum OperationKind {
    Proxy,
    ProxyAnnounced,
    RemoveAnnouncement,
    RejectAnnouncement,
    Announce,
    AddProxy,
    RemoveProxy,
    RemoveProxies,
    Anonymous,
    KillAnonymous,
}

/// Identifies which runtime-supplied scalar a coefficient multiplies.
#[derive(Clone, Copy, PartialEq, Eq, Structural, Debug)]
pub enum ParamId {
    /// The number of announcements in force for the affected account (`a`).
    Announcements,
    /// The number of proxies registered for the affected account (`p`).
    Proxies,
}

/// One linear term of a cost formula: `coefficient * value(slot)`.
#[derive(Clone, Copy, PartialEq, Eq, Structural, Debug)]
pub struct LinearTerm {
    /// Calibrated compute units per unit of the parameter.
    pub coefficient: u64,
    /// The parameter the coefficient multiplies.
    pub slot: ParamId,
}

/// The calibrated cost formula of one operation kind. The numeric constants
/// are opaque calibrated inputs, produced by an external measurement process
/// and immutable after registration.
#[derive(Debug)]
pub struct CostFormula {
    /// Fixed compute-unit cost, independent of the inputs.
    pub base: u64,
    /// Linear terms, evaluated with saturating arithmetic in declaration order.
    pub linear_terms: Vec<LinearTerm>,
    /// Fixed count of storage reads.
    pub reads: u32,
    /// Fixed count of storage writes.
    pub writes: u32,
}

/// The output of one estimate: a transient value, consumed immediately by the
/// admission and fee logic.
#[derive(Clone, Copy, PartialEq, Eq, Structural, Debug)]
pub struct ResourceEstimate {
    /// Compute-unit cost.
    pub compute: u64,
    /// Count of storage reads (priced externally).
    pub reads: u32,
    /// Count of storage writes (priced externally).
    pub writes: u32,
}

/// A caller contract violation observed by `estimate`. Both variants are
/// deterministic defects to be fixed upstream, never retried.
#[derive(Clone, Copy, PartialEq, Eq, Structural, Debug)]
pub enum EstimateError {
    /// The kind was never registered.
    UnknownOperationKind(OperationKind),
    /// The named parameter slot, required by the kind's formula, was not supplied.
    MissingParameter(ParamId),
}

/// A configuration defect observed during registration.
#[derive(Clone, Copy, PartialEq, Eq, Structural, Debug)]
pub enum RegisterError {
    /// The kind already has a formula; silent overwrite is rejected.
    DuplicateOperationKind(OperationKind),
}

/// The value supplied for `slot`: the first matching entry of `params`.
/// Entries for other slots are ignored.
pub open spec fn spec_param_value(params: Seq<(ParamId, u64)>, slot: ParamId) -> Option<u64>
    decreases params.len(),
{
    if params.len() == 0 {
        None
    } else if params[0].0 == slot {
        Some(params[0].1)
    } else {
        spec_param_value(params.drop_first(), slot)
    }
}

/// Whether `entries` holds a formula for `kind`.
pub open spec fn spec_contains_kind(
    entries: Seq<(OperationKind, CostFormula)>,
    kind: OperationKind,
) -> bool {
    exists|i: int| 0 <= i < entries.len() && entries[i].0 == kind
}

/// The formula registered for `kind`: the first matching entry.
pub open spec fn spec_lookup(
    entries: Seq<(OperationKind, CostFormula)>,
    kind: OperationKind,
) -> Option<CostFormula>
    decreases entries.len(),
{
    if entries.len() == 0 {
        None
    } else if entries[0].0 == kind {
        Some(entries[0].1)
    } else {
        spec_lookup(entries.drop_first(), kind)
    }
}

/// The first parameter slot of `terms`, in declaration order, that `params`
/// does not supply.
pub open spec fn spec_missing_slot(
    terms: Seq<LinearTerm>,
    params: Seq<(ParamId, u64)>,
) -> Option<ParamId>
    decreases terms.len(),
{
    if terms.len() == 0 {
        None
    } else if spec_param_value(params, terms[0].slot) is None {
        Some(terms[0].slot)
    } else {
        spec_missing_slot(terms.drop_first(), params)
    }
}

/// The saturating linear combination: starting from `acc`, fold each term's
/// `coefficient * value(slot)` in declaration order, multiplication and
/// addition both clamped to `u64::MAX`. Meaningful when every slot of `terms`
/// is supplied; an unsupplied slot contributes nothing.
pub open spec fn spec_eval(acc: int, terms: Seq<LinearTerm>, params: Seq<(ParamId, u64)>) -> int
    decreases terms.len(),
{
    if terms.len() == 0 {
        acc
    } else {
        let v: int = match spec_param_value(params, terms[0].slot) {
            Some(v) => v as int,
            None => 0,
        };
        spec_eval(sat_add(acc, sat_mul(terms[0].coefficient as int, v)), terms.drop_first(), params)
    }
}

/// What `estimate` returns: an unregistered kind and a missing parameter slot
/// are the only errors, and a success carries the saturating linear value of
/// the kind's formula together with its fixed read/write counts.
pub open spec fn spec_estimate(
    entries: Seq<(OperationKind, CostFormula)>,
    kind: OperationKind,
    params: Seq<(ParamId, u64)>,
) -> Result<ResourceEstimate, EstimateError> {
    match spec_lookup(entries, kind) {
        None => Err(EstimateError::UnknownOperationKind(kind)),
        Some(formula) => match spec_missing_slot(formula.linear_terms@, params) {
            Some(slot) => Err(EstimateError::MissingParameter(slot)),
            None => Ok(
                ResourceEstimate {
                    compute: spec_eval(formula.base as int, formula.linear_terms@, params) as u64,
                    reads: formula.reads,
                    writes: formula.writes,
                },
            ),
        },
    }
}

/// What `register` does to the table: a fresh kind is appended, a duplicate
/// is rejected and the table kept as it was.
pub open spec fn spec_register(
    entries: Seq<(OperationKind, CostFormula)>,
    kind: OperationKind,
    formula: CostFormula,
) -> Result<Seq<(OperationKind, CostFormula)>, RegisterError> {
    if spec_contains_kind(entries, kind) {
        Err(RegisterError::DuplicateOperationKind(kind))
    } else {
        Ok(entries.push((kind, formula)))
    }
}

/// No kind appears twice in the table.
pub open spec fn kinds_unique(entries: Seq<(OperationKind, CostFormula)>) -> bool {
    forall|i: int, j: int|
        0 <= i < j < entries.len() ==> (#[trigger] entries[i]).0 != (#[trigger] entries[j]).0
}

/// Accumulates formula registrations during the single-threaded
/// initialization phase. `build` freezes it; there is no way back from a
/// built model to a mutable table.
pub struct CostModelBuilder {
    entries: Vec<(OperationKind, CostFormula)>,
}

/// The frozen model: an immutable table of calibrated formulas, safely
/// shared by unlimited concurrent readers. Exposes no mutation.
pub struct CostModel {
    entries: Vec<(OperationKind, CostFormula)>,
}

impl View for CostModelBuilder {
    type V = Seq<(OperationKind, CostFormula)>;

    closed spec fn view(&self) -> Seq<(OperationKind, CostFormula)> {
        self.entries@
    }
}

impl View for CostModel {
    type V = Seq<(OperationKind, CostFormula)>;

    closed spec fn view(&self) -> Seq<(OperationKind, CostFormula)> {
        self.entries@
    }
}

impl CostModelBuilder {
    /// An empty builder: no kinds registered yet.
    pub fn new() -> (r: CostModelBuilder)
        ensures
            r@ == Seq::<(OperationKind, CostFormula)>::empty(),
            kinds_unique(r@),
    {
        CostModelBuilder { entries: Vec::new() }
    }

    /// Registers the cost formula of one operation kind. Re-registering an
    /// already-registered kind is rejected and leaves the builder unchanged,
    /// so no kind ever stands in the table twice.
    pub fn register(&mut self, kind: OperationKind, formula: CostFormula) -> (r: Result<
        (),
        RegisterError,
    >)
        ensures
            match spec_register(old(self)@, kind, formula) {
                Ok(new_entries) => r == Ok::<(), RegisterError>(()) && final(self)@
                    == new_entries,
                Err(e) => r == Err::<(), RegisterError>(e) && final(self)@ == old(self)@,
            },
            kinds_unique(old(self)@) ==> kinds_unique(final(self)@),
    {
        if contains_kind(&self.entries, kind) {
            Err(RegisterError::DuplicateOperationKind(kind))
        } else {
            proof {
                if kinds_unique(self.entries@) {
                    assert forall|i: int, j: int|
                        0 <= i < j < self.entries@.push((kind, formula)).len() implies (
                    #[trigger] self.entries@.push((kind, formula))[i]).0 != (
                    #[trigger] self.entries@.push((kind, formula))[j]).0 by {
                        if j < self.entries@.len() {
                            assert((self.entries@[i]).0 != (self.entries@[j]).0);
                        } else {
                            assert(!(0 <= i < self.entries@.len() && self.entries@[i].0
                                == kind));
                        }
                    }
                }
            }
            self.entries.push((kind, formula));
            Ok(())
        }
    }

    /// Freezes the builder into an immutable model holding the same table.
    pub fn build(self) -> (m: CostModel)
        ensures
            m@ == self@,
    {
        CostModel { entries: self.entries }
    }
}

impl CostModel {
    /// The resource estimate of one operation instance: the kind's registered
    /// formula evaluated on the supplied parameter values with saturating
    /// arithmetic. Pure: no state is read besides the frozen table, and none
    /// is written.
    pub fn estimate(&self, kind: OperationKind, params: &Vec<(ParamId, u64)>) -> (r: Result<
        ResourceEstimate,
        EstimateError,
    >)
        ensures
            r == spec_estimate(self@, kind, params@),
    {
        let formula: &CostFormula = match find_formula(&self.entries, kind) {
            None => {
                return Err(EstimateError::UnknownOperationKind(kind));
            },
            Some(f) => f,
        };
        let ghost terms: Seq<LinearTerm> = formula.linear_terms@;
        let mut compute: u64 = formula.base;
        let mut i: usize = 0;
        proof {
            assert(terms.skip(0) =~= terms);
        }
        while i < formula.linear_terms.len()
            invariant
                i <= terms.len(),
                spec_lookup(self@, kind) == Some(*formula),
                terms == formula.linear_terms@,
                spec_missing_slot(terms, params@) == spec_missing_slot(
                    terms.skip(i as int),
                    params@,
                ),
                spec_eval(formula.base as int, terms, params@) == spec_eval(
                    compute as int,
                    terms.skip(i as int),
                    params@,
                ),
            decreases terms.len() - i,
        {
            let term = formula.linear_terms[i];
            proof {
                assert(terms.skip(i as int)[0] == term);
                assert(terms.skip(i as int).drop_first() =~= terms.skip(i as int + 1));
            }
            match find_param(params, term.slot) {
                None => {
                    proof {
                        assert(spec_param_value(params@, term.slot) is None);
                        assert(spec_missing_slot(terms.skip(i as int), params@) == Some(
                            term.slot,
                        ));
                    }
                    return Err(EstimateError::MissingParameter(term.slot));
                },
                Some(v) => {
                    compute = sat_add_u64(compute, sat_mul_u64(term.coefficient, v));
                    i = i + 1;
                },
            }
        }
        proof {
            assert(terms.skip(terms.len() as int) =~= Seq::<LinearTerm>::empty());
        }
        Ok(ResourceEstimate { compute, reads: formula.reads, writes: formula.writes })
    }
}

/// Whether the table holds an entry for `kind`.
fn contains_kind(entries: &Vec<(OperationKind, CostFormula)>, kind: OperationKind) -> (r: bool)
    ensures
        r == spec_contains_kind(entries@, kind),
{
    let mut i: usize = 0;
    while i < entries.len()
        invariant
            i <= entries@.len(),
            forall|j: int| 0 <= j < i ==> (#[trigger] entries@[j]).0 != kind,
        decreases entries@.len() - i,
    {
        if entries[i].0 == kind {
            return true;
        }
        i = i + 1;
    }
    false
}

/// The first entry of the table registered for `kind`, if any.
fn find_formula(entries: &Vec<(OperationKind, CostFormula)>, kind: OperationKind) -> (r: Option<
    &CostFormula,
>)
    ensures
        match r {
            Some(f) => spec_lookup(entries@, kind) == Some(*f),
            None => spec_lookup(entries@, kind) is None,
        },
{
    let mut i: usize = 0;
    proof {
        assert(entries@.skip(0) =~= entries@);
    }
    while i < entries.len()
        invariant
            i <= entries@.len(),
            spec_lookup(entries@, kind) == spec_lookup(entries@.skip(i as int), kind),
        decreases entries@.len() - i,
    {
        proof {
            assert(entries@.skip(i as int)[0] == entries@[i as int]);
            assert(entries@.skip(i as int).drop_first() =~= entries@.skip(i as int + 1));
        }
        if entries[i].0 == kind {
            return Some(&entries[i].1);
        }
        i = i + 1;
    }
    proof {
        assert(entries@.skip(entries@.len() as int) =~= Seq::<(OperationKind, CostFormula)>::empty());
    }
    None
}

/// The value supplied for `slot`: the first matching entry of `params`.
fn find_param(params: &Vec<(ParamId, u64)>, slot: ParamId) -> (r: Option<u64>)
    ensures
        r == spec_param_value(params@, slot),
{
    let mut i: usize = 0;
    proof {
        assert(params@.skip(0) =~= params@);
    }
    while i < params.len()
        invariant
            i <= params@.len(),
            spec_param_value(params@, slot) == spec_param_value(params@.skip(i as int), slot),
        decreases params@.len() - i,
    {
        proof {
            assert(params@.skip(i as int)[0] == params@[i as int]);
            assert(params@.skip(i as int).drop_first() =~= params@.skip(i as int + 1));
        }
        if params[i].0 == slot {
            return Some(params[i].1);
        }
        i = i + 1;
    }
    proof {
        assert(params@.skip(params@.len() as int) =~= Seq::<(ParamId, u64)>::empty());
    }
    None
}

} // verus!
