//! The safety laws of the cost model, stated and proved over the same spec
//! functions that the executable functions' contracts use.

use vstd::prelude::*;

use crate::model::{
    CostFormula, EstimateError, LinearTerm, OperationKind, ParamId, RegisterError,
    ResourceEstimate, spec_contains_kind, spec_estimate, spec_lookup, spec_missing_slot,
    spec_eval, spec_param_value, spec_register,
};
use crate::saturating::{
    sat_add, sat_mul, lemma_sat_add_bounds, lemma_sat_add_monotonic, lemma_sat_add_saturates,
    lemma_sat_mul_bounds, lemma_sat_mul_monotonic, lemma_sat_mul_saturates,
};

verus! {

/// Pointwise order on parameter mappings: both supply the same slots, and
/// each value supplied by `p1` is at most the value `p2` supplies.
pub open spec fn params_le(p1: Seq<(ParamId, u64)>, p2: Seq<(ParamId, u64)>) -> bool {
    forall|slot: ParamId|
        #![trigger spec_param_value(p1, slot)]
        #![trigger spec_param_value(p2, slot)]
        match (spec_param_value(p1, slot), spec_param_value(p2, slot)) {
            (Some(v1), Some(v2)) => v1 <= v2,
            (None, None) => true,
            _ => false,
        }
}

/// The saturating linear combination stays within the `u64` range and never
/// falls below its starting accumulator.
pub proof fn lemma_eval_bounds(acc: int, terms: Seq<LinearTerm>, params: Seq<(ParamId, u64)>)
    requires
        0 <= acc <= u64::MAX,
    ensures
        acc <= spec_eval(acc, terms, params) <= u64::MAX,
    decreases terms.len(),
{
    if terms.len() > 0 {
        let v: int = match spec_param_value(params, terms[0].slot) {
            Some(v) => v as int,
            None => 0,
        };
        let c: int = terms[0].coefficient as int;
        lemma_sat_mul_bounds(c, v);
        lemma_sat_add_bounds(acc, sat_mul(c, v));
        lemma_eval_bounds(sat_add(acc, sat_mul(c, v)), terms.drop_first(), params);
    }
}

/// Parameter mappings that supply the same slots leave the same formula
/// slots unsupplied: the first missing slot is the same on both sides.
proof fn lemma_missing_slot_same(
    terms: Seq<LinearTerm>,
    p1: Seq<(ParamId, u64)>,
    p2: Seq<(ParamId, u64)>,
)
    requires
        params_le(p1, p2),
    ensures
        spec_missing_slot(terms, p1) == spec_missing_slot(terms, p2),
    decreases terms.len(),
{
    if terms.len() > 0 {
        assert(spec_param_value(p1, terms[0].slot) is None <==> spec_param_value(
            p2,
            terms[0].slot,
        ) is None);
        lemma_missing_slot_same(terms.drop_first(), p1, p2);
    }
}

/// Monotonicity of the evaluator: a no-smaller accumulator and pointwise
/// no-smaller parameters give a no-smaller saturating linear combination.
proof fn lemma_eval_monotonic(
    acc1: int,
    acc2: int,
    terms: Seq<LinearTerm>,
    p1: Seq<(ParamId, u64)>,
    p2: Seq<(ParamId, u64)>,
)
    requires
        0 <= acc1 <= u64::MAX,
        0 <= acc2 <= u64::MAX,
        acc1 <= acc2,
        params_le(p1, p2),
    ensures
        spec_eval(acc1, terms, p1) <= spec_eval(acc2, terms, p2),
    decreases terms.len(),
{
    if terms.len() > 0 {
        let slot = terms[0].slot;
        let c: int = terms[0].coefficient as int;
        let v1: int = match spec_param_value(p1, slot) {
            Some(v) => v as int,
            None => 0,
        };
        let v2: int = match spec_param_value(p2, slot) {
            Some(v) => v as int,
            None => 0,
        };
        assert(spec_param_value(p1, slot) is Some ==> v1 <= v2);
        assert(spec_param_value(p1, slot) is None ==> v1 == 0);
        lemma_sat_mul_bounds(c, v1);
        lemma_sat_mul_bounds(c, v2);
        lemma_sat_mul_monotonic(c, v1, c, v2);
        lemma_sat_add_monotonic(acc1, sat_mul(c, v1), acc2, sat_mul(c, v2));
        lemma_sat_add_bounds(acc1, sat_mul(c, v1));
        lemma_sat_add_bounds(acc2, sat_mul(c, v2));
        lemma_eval_monotonic(
            sat_add(acc1, sat_mul(c, v1)),
            sat_add(acc2, sat_mul(c, v2)),
            terms.drop_first(),
            p1,
            p2,
        );
    }
}

/// Monotonicity of the model: for one kind and pointwise-ordered parameter
/// mappings that supply the same slots, no field of the estimate decreases,
/// and the two calls fail alike.
pub proof fn lemma_estimate_monotonic(
    entries: Seq<(OperationKind, CostFormula)>,
    kind: OperationKind,
    p1: Seq<(ParamId, u64)>,
    p2: Seq<(ParamId, u64)>,
)
    requires
        params_le(p1, p2),
    ensures
        match (spec_estimate(entries, kind, p1), spec_estimate(entries, kind, p2)) {
            (Ok(r1), Ok(r2)) => r1.compute <= r2.compute && r1.reads == r2.reads && r1.writes
                == r2.writes,
            (Err(e1), Err(e2)) => e1 == e2,
            _ => false,
        },
{
    match spec_lookup(entries, kind) {
        None => {},
        Some(f) => {
            lemma_missing_slot_same(f.linear_terms@, p1, p2);
            match spec_missing_slot(f.linear_terms@, p1) {
                Some(_) => {},
                None => {
                    lemma_eval_bounds(f.base as int, f.linear_terms@, p1);
                    lemma_eval_bounds(f.base as int, f.linear_terms@, p2);
                    lemma_eval_monotonic(f.base as int, f.base as int, f.linear_terms@, p1, p2);
                },
            }
        },
    }
}

/// A saturated evaluator stays saturated: once the accumulator reaches
/// `u64::MAX`, every further term leaves it there.
proof fn lemma_eval_at_max(acc: int, terms: Seq<LinearTerm>, params: Seq<(ParamId, u64)>)
    requires
        acc == u64::MAX,
    ensures
        spec_eval(acc, terms, params) == u64::MAX,
    decreases terms.len(),
{
    if terms.len() > 0 {
        let v: int = match spec_param_value(params, terms[0].slot) {
            Some(v) => v as int,
            None => 0,
        };
        let c: int = terms[0].coefficient as int;
        lemma_sat_mul_bounds(c, v);
        lemma_sat_add_saturates(acc, sat_mul(c, v));
        lemma_eval_at_max(sat_add(acc, sat_mul(c, v)), terms.drop_first(), params);
    }
}

/// If any single term's exact product reaches the top of the `u64` range,
/// the whole saturating linear combination is exactly `u64::MAX`.
proof fn lemma_eval_saturates(
    acc: int,
    terms: Seq<LinearTerm>,
    params: Seq<(ParamId, u64)>,
    i: int,
    v: u64,
)
    requires
        0 <= acc <= u64::MAX,
        0 <= i < terms.len(),
        spec_param_value(params, terms[i].slot) == Some(v),
        terms[i].coefficient * v >= u64::MAX,
    ensures
        spec_eval(acc, terms, params) == u64::MAX,
    decreases i,
{
    let v0: int = match spec_param_value(params, terms[0].slot) {
        Some(x) => x as int,
        None => 0,
    };
    let c0: int = terms[0].coefficient as int;
    lemma_sat_mul_bounds(c0, v0);
    let acc1 = sat_add(acc, sat_mul(c0, v0));
    if i == 0 {
        lemma_sat_mul_saturates(c0, v as int);
        lemma_sat_add_saturates(acc, sat_mul(c0, v0));
        lemma_eval_at_max(acc1, terms.drop_first(), params);
    } else {
        lemma_sat_add_bounds(acc, sat_mul(c0, v0));
        assert(terms.drop_first()[i - 1] == terms[i]);
        lemma_eval_saturates(acc1, terms.drop_first(), params, i - 1, v);
    }
}

/// No silent wraparound: when some registered term's coefficient, multiplied
/// exactly by its supplied parameter value, reaches the top of the `u64`
/// range, the estimate's compute cost is exactly `u64::MAX` — never a
/// wrapped-around small value.
pub proof fn lemma_no_silent_wraparound(
    entries: Seq<(OperationKind, CostFormula)>,
    kind: OperationKind,
    params: Seq<(ParamId, u64)>,
    f: CostFormula,
    i: int,
    v: u64,
)
    requires
        spec_lookup(entries, kind) == Some(f),
        spec_missing_slot(f.linear_terms@, params) is None,
        0 <= i < f.linear_terms@.len(),
        spec_param_value(params, f.linear_terms@[i].slot) == Some(v),
        f.linear_terms@[i].coefficient * v >= u64::MAX,
    ensures
        spec_estimate(entries, kind, params) == Ok::<ResourceEstimate, EstimateError>(
            ResourceEstimate { compute: u64::MAX, reads: f.reads, writes: f.writes },
        ),
{
    lemma_eval_saturates(f.base as int, f.linear_terms@, params, i, v);
}

/// A parameter at the top of the `u64` range saturates the estimate whenever
/// its coefficient is non-zero: an extreme input yields the maximum estimate,
/// to be denied by the budget check downstream, never a small one.
pub proof fn lemma_max_param_saturates(
    entries: Seq<(OperationKind, CostFormula)>,
    kind: OperationKind,
    params: Seq<(ParamId, u64)>,
    f: CostFormula,
    i: int,
)
    requires
        spec_lookup(entries, kind) == Some(f),
        spec_missing_slot(f.linear_terms@, params) is None,
        0 <= i < f.linear_terms@.len(),
        spec_param_value(params, f.linear_terms@[i].slot) == Some(u64::MAX),
        f.linear_terms@[i].coefficient >= 1,
    ensures
        spec_estimate(entries, kind, params) == Ok::<ResourceEstimate, EstimateError>(
            ResourceEstimate { compute: u64::MAX, reads: f.reads, writes: f.writes },
        ),
{
    let c: int = f.linear_terms@[i].coefficient as int;
    assert(c * (u64::MAX as int) >= u64::MAX as int) by (nonlinear_arith)
        requires
            c >= 1,
    ;
    lemma_no_silent_wraparound(entries, kind, params, f, i, u64::MAX);
}

/// Determinism: an estimate is a pure function of the frozen table, the kind
/// and the parameter values; two results of identical inputs are identical.
pub proof fn lemma_estimate_deterministic(
    entries: Seq<(OperationKind, CostFormula)>,
    kind: OperationKind,
    params: Seq<(ParamId, u64)>,
    r1: Result<ResourceEstimate, EstimateError>,
    r2: Result<ResourceEstimate, EstimateError>,
)
    requires
        r1 == spec_estimate(entries, kind, params),
        r2 == spec_estimate(entries, kind, params),
    ensures
        r1 == r2,
{
}

/// Registering an already-registered kind is rejected, with the table left
/// exactly as it was: a configuration bug cannot silently change a
/// consensus-critical cost.
pub proof fn lemma_duplicate_registration_rejected(
    entries: Seq<(OperationKind, CostFormula)>,
    kind: OperationKind,
    formula: CostFormula,
)
    requires
        spec_contains_kind(entries, kind),
    ensures
        spec_register(entries, kind, formula) == Err::<
            Seq<(OperationKind, CostFormula)>,
            RegisterError,
        >(RegisterError::DuplicateOperationKind(kind)),
{
}

/// Appending an entry to the table leaves the lookup of every kind already
/// registered unchanged.
proof fn lemma_lookup_push(
    entries: Seq<(OperationKind, CostFormula)>,
    e: (OperationKind, CostFormula),
    kind: OperationKind,
)
    requires
        spec_contains_kind(entries, kind),
    ensures
        spec_lookup(entries.push(e), kind) == spec_lookup(entries, kind),
    decreases entries.len(),
{
    assert(entries.len() > 0);
    assert(entries.push(e)[0] == entries[0]);
    if entries[0].0 != kind {
        let i = choose|i: int| 0 <= i < entries.len() && (#[trigger] entries[i]).0 == kind;
        assert(entries.drop_first()[i - 1].0 == kind);
        assert(spec_contains_kind(entries.drop_first(), kind));
        lemma_lookup_push(entries.drop_first(), e, kind);
        assert(entries.push(e).drop_first() =~= entries.drop_first().push(e));
    }
}

/// Registration immutability: a successful registration of a fresh kind
/// never changes the estimate of any kind registered before it.
pub proof fn lemma_registration_preserves_estimates(
    entries: Seq<(OperationKind, CostFormula)>,
    kind: OperationKind,
    formula: CostFormula,
    other: OperationKind,
    params: Seq<(ParamId, u64)>,
)
    requires
        !spec_contains_kind(entries, kind),
        spec_contains_kind(entries, other),
    ensures
        spec_register(entries, kind, formula) matches Ok(new_entries) && spec_estimate(
            new_entries,
            other,
            params,
        ) == spec_estimate(entries, other, params),
{
    lemma_lookup_push(entries, (kind, formula), other);
}

} // verus!
