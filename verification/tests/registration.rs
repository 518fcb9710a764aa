use cost_model::model::{
    CostFormula, CostModelBuilder, EstimateError, LinearTerm, OperationKind, ParamId,
    RegisterError,
};
use cost_model::proxy::proxy_cost_model;

fn one_term_formula(base: u64, coefficient: u64, slot: ParamId) -> CostFormula {
    let mut terms: Vec<LinearTerm> = Vec::new();
    terms.push(LinearTerm { coefficient, slot });
    CostFormula { base, linear_terms: terms, reads: 1, writes: 1 }
}

#[test]
fn duplicate_kind_rejected_and_estimates_unchanged() {
    let mut b = CostModelBuilder::new();
    let first = b.register(
        OperationKind::Anonymous,
        one_term_formula(50_739_000, 26_000, ParamId::Proxies),
    );
    assert_eq!(first, Ok(()));
    let second = b.register(
        OperationKind::Anonymous,
        one_term_formula(1, 1, ParamId::Proxies),
    );
    assert_eq!(
        second,
        Err(RegisterError::DuplicateOperationKind(OperationKind::Anonymous))
    );
    let m = b.build();
    let mut ps: Vec<(ParamId, u64)> = Vec::new();
    ps.push((ParamId::Proxies, 2));
    let r = m.estimate(OperationKind::Anonymous, &ps).unwrap();
    assert_eq!(r.compute, 50_739_000 + 26_000 * 2);
}

#[test]
fn unknown_kind_rejected() {
    let mut b = CostModelBuilder::new();
    let r = b.register(
        OperationKind::Proxy,
        one_term_formula(23_893_000, 187_000, ParamId::Proxies),
    );
    assert_eq!(r, Ok(()));
    let m = b.build();
    let ps: Vec<(ParamId, u64)> = Vec::new();
    assert_eq!(
        m.estimate(OperationKind::Anonymous, &ps),
        Err(EstimateError::UnknownOperationKind(OperationKind::Anonymous))
    );
}

#[test]
fn missing_parameter_rejected_in_declaration_order() {
    let m = proxy_cost_model();
    let empty: Vec<(ParamId, u64)> = Vec::new();
    assert_eq!(
        m.estimate(OperationKind::RemoveAnnouncement, &empty),
        Err(EstimateError::MissingParameter(ParamId::Announcements))
    );
    let mut only_a: Vec<(ParamId, u64)> = Vec::new();
    only_a.push((ParamId::Announcements, 3));
    assert_eq!(
        m.estimate(OperationKind::RemoveAnnouncement, &only_a),
        Err(EstimateError::MissingParameter(ParamId::Proxies))
    );
}

#[test]
fn errors_leave_the_model_unchanged() {
    let m = proxy_cost_model();
    let empty: Vec<(ParamId, u64)> = Vec::new();
    let mut full: Vec<(ParamId, u64)> = Vec::new();
    full.push((ParamId::Announcements, 3));
    full.push((ParamId::Proxies, 5));
    let before = m.estimate(OperationKind::RemoveAnnouncement, &full);
    let failed = m.estimate(OperationKind::RemoveAnnouncement, &empty);
    assert!(failed.is_err());
    let after = m.estimate(OperationKind::RemoveAnnouncement, &full);
    assert_eq!(before, after);
    assert_eq!(after.unwrap().compute, 40_133_000);
}

#[test]
fn base_only_formula() {
    let mut b = CostModelBuilder::new();
    let r = b.register(
        OperationKind::RemoveProxies,
        CostFormula { base: 777, linear_terms: Vec::new(), reads: 0, writes: 3 },
    );
    assert_eq!(r, Ok(()));
    let m = b.build();
    let ps: Vec<(ParamId, u64)> = Vec::new();
    let e = m.estimate(OperationKind::RemoveProxies, &ps).unwrap();
    assert_eq!(e.compute, 777);
    assert_eq!(e.reads, 0);
    assert_eq!(e.writes, 3);
}

#[test]
fn huge_coefficient_saturates_instead_of_wrapping() {
    let mut b = CostModelBuilder::new();
    let r = b.register(
        OperationKind::Proxy,
        one_term_formula(1, u64::MAX, ParamId::Proxies),
    );
    assert_eq!(r, Ok(()));
    let m = b.build();
    let mut ps: Vec<(ParamId, u64)> = Vec::new();
    ps.push((ParamId::Proxies, 2));
    let e = m.estimate(OperationKind::Proxy, &ps).unwrap();
    assert_eq!(e.compute, u64::MAX);
}
