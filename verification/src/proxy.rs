//! The calibrated cost table of the proxy operations: one formula per
//! operation kind, registered once and frozen. The numeric constants are
//! opaque calibrated inputs from an external measurement process.

use vstd::prelude::*;

use crate::model::{
    CostFormula, CostModel, CostModelBuilder, LinearTerm, OperationKind, ParamId, spec_lookup,
};

verus! {

/// A linear term, in spec form.
pub open spec fn spec_term(coefficient: u64, slot: ParamId) -> LinearTerm {
    LinearTerm { coefficient, slot }
}

/// Whether `f` has exactly the given base cost, linear terms and fixed
/// storage-access counts.
pub open spec fn formula_is(
    f: CostFormula,
    base: u64,
    terms: Seq<LinearTerm>,
    reads: u32,
    writes: u32,
) -> bool {
    f.base == base && f.linear_terms@ == terms && f.reads == reads && f.writes == writes
}

/// A formula of one linear term.
fn formula1(base: u64, c: u64, slot: ParamId, reads: u32, writes: u32) -> (f: CostFormula)
    ensures
        formula_is(f, base, seq![spec_term(c, slot)], reads, writes),
{
    let mut terms: Vec<LinearTerm> = Vec::new();
    terms.push(LinearTerm { coefficient: c, slot });
    proof {
        assert(terms@ =~= seq![spec_term(c, slot)]);
    }
    CostFormula { base, linear_terms: terms, reads, writes }
}

/// A formula of two linear terms, evaluated in the given order.
fn formula2(
    base: u64,
    c1: u64,
    slot1: ParamId,
    c2: u64,
    slot2: ParamId,
    reads: u32,
    writes: u32,
) -> (f: CostFormula)
    ensures
        formula_is(f, base, seq![spec_term(c1, slot1), spec_term(c2, slot2)], reads, writes),
{
    let mut terms: Vec<LinearTerm> = Vec::new();
    terms.push(LinearTerm { coefficient: c1, slot: slot1 });
    terms.push(LinearTerm { coefficient: c2, slot: slot2 });
    proof {
        assert(terms@ =~= seq![spec_term(c1, slot1), spec_term(c2, slot2)]);
    }
    CostFormula { base, linear_terms: terms, reads, writes }
}

/// The frozen cost model of the proxy operations, with every kind's
/// calibrated formula registered.
pub fn proxy_cost_model() -> (m: CostModel)
    ensures
        m@.len() == 10,
        spec_lookup(m@, OperationKind::Proxy) matches Some(f) && formula_is(
            f,
            23_893_000,
            seq![spec_term(187_000, ParamId::Proxies)],
            1,
            0,
        ),
        spec_lookup(m@, OperationKind::ProxyAnnounced) matches Some(f) && formula_is(
            f,
            55_170_000,
            seq![spec_term(639_000, ParamId::Announcements), spec_term(180_000, ParamId::Proxies)],
            3,
            2,
        ),
        spec_lookup(m@, OperationKind::RemoveAnnouncement) matches Some(f) && formula_is(
            f,
            38_214_000,
            seq![spec_term(628_000, ParamId::Announcements), spec_term(7_000, ParamId::Proxies)],
            2,
            2,
        ),
        spec_lookup(m@, OperationKind::RejectAnnouncement) matches Some(f) && formula_is(
            f,
            38_217_000,
            seq![spec_term(630_000, ParamId::Announcements), spec_term(7_000, ParamId::Proxies)],
            2,
            2,
        ),
        spec_lookup(m@, OperationKind::Announce) matches Some(f) && formula_is(
            f,
            51_960_000,
            seq![spec_term(640_000, ParamId::Announcements), spec_term(179_000, ParamId::Proxies)],
            3,
            2,
        ),
        spec_lookup(m@, OperationKind::AddProxy) matches Some(f) && formula_is(
            f,
            37_175_000,
            seq![spec_term(241_000, ParamId::Proxies)],
            1,
            1,
        ),
        spec_lookup(m@, OperationKind::RemoveProxy) matches Some(f) && formula_is(
            f,
            37_032_000,
            seq![spec_term(273_000, ParamId::Proxies)],
            1,
            1,
        ),
        spec_lookup(m@, OperationKind::RemoveProxies) matches Some(f) && formula_is(
            f,
            35_841_000,
            seq![spec_term(189_000, ParamId::Proxies)],
            1,
            1,
        ),
        spec_lookup(m@, OperationKind::Anonymous) matches Some(f) && formula_is(
            f,
            50_739_000,
            seq![spec_term(26_000, ParamId::Proxies)],
            2,
            1,
        ),
        spec_lookup(m@, OperationKind::KillAnonymous) matches Some(f) && formula_is(
            f,
            37_929_000,
            seq![spec_term(186_000, ParamId::Proxies)],
            1,
            1,
        ),
{
    let mut b = CostModelBuilder::new();
    let _ = b.register(
        OperationKind::Proxy,
        formula1(23_893_000, 187_000, ParamId::Proxies, 1, 0),
    );
    let _ = b.register(
        OperationKind::ProxyAnnounced,
        formula2(55_170_000, 639_000, ParamId::Announcements, 180_000, ParamId::Proxies, 3, 2),
    );
    let _ = b.register(
        OperationKind::RemoveAnnouncement,
        formula2(38_214_000, 628_000, ParamId::Announcements, 7_000, ParamId::Proxies, 2, 2),
    );
    let _ = b.register(
        OperationKind::RejectAnnouncement,
        formula2(38_217_000, 630_000, ParamId::Announcements, 7_000, ParamId::Proxies, 2, 2),
    );
    let _ = b.register(
        OperationKind::Announce,
        formula2(51_960_000, 640_000, ParamId::Announcements, 179_000, ParamId::Proxies, 3, 2),
    );
    let _ = b.register(
        OperationKind::AddProxy,
        formula1(37_175_000, 241_000, ParamId::Proxies, 1, 1),
    );
    let _ = b.register(
        OperationKind::RemoveProxy,
        formula1(37_032_000, 273_000, ParamId::Proxies, 1, 1),
    );
    let _ = b.register(
        OperationKind::RemoveProxies,
        formula1(35_841_000, 189_000, ParamId::Proxies, 1, 1),
    );
    let _ = b.register(
        OperationKind::Anonymous,
        formula1(50_739_000, 26_000, ParamId::Proxies, 2, 1),
    );
    let _ = b.register(
        OperationKind::KillAnonymous,
        formula1(37_929_000, 186_000, ParamId::Proxies, 1, 1),
    );
    let m = b.build();
    proof {
        reveal_with_fuel(spec_lookup, 11);
    }
    m
}

} // verus!
