use form_validation::aggregator::{IdentitySource, ValidityAggregator};

#[test]
fn empty_registry_is_valid() {
    let agg = ValidityAggregator::new();
    assert!(agg.aggregate());
}

#[test]
fn two_field_scenario() {
    let mut agg = ValidityAggregator::new();
    let field_a = 1u64;
    let field_b = 2u64;

    agg.report(field_a, false);
    agg.report(field_b, false);
    assert!(!agg.aggregate());

    agg.report(field_a, true);
    assert!(!agg.aggregate());

    let after_b = agg.report(field_b, true);
    assert!(after_b);
    assert!(agg.aggregate());

    let after_a_breaks = agg.report(field_a, false);
    assert!(!after_a_breaks);
    assert!(!agg.aggregate());
}

#[test]
fn repeated_report_is_idempotent() {
    let mut agg = ValidityAggregator::new();
    agg.report(7, true);
    agg.report(9, false);
    let before = agg.aggregate();
    let repeated = agg.report(9, false);
    assert_eq!(before, repeated);
    assert_eq!(before, agg.aggregate());

    agg.report(9, true);
    let before = agg.aggregate();
    let repeated = agg.report(9, true);
    assert_eq!(before, repeated);
    assert!(agg.aggregate());
}

#[test]
fn last_report_per_field_wins() {
    let mut agg = ValidityAggregator::new();
    agg.report(3, false);
    agg.report(3, true);
    assert!(agg.aggregate());
    agg.report(3, false);
    assert!(!agg.aggregate());
}

#[test]
fn report_order_does_not_matter() {
    let mut one = ValidityAggregator::new();
    one.report(1, true);
    one.report(2, false);

    let mut two = ValidityAggregator::new();
    two.report(2, false);
    two.report(1, true);

    assert_eq!(one.aggregate(), two.aggregate());
    assert!(!one.aggregate());
}

#[test]
fn identity_source_counts_up() {
    let mut ids = IdentitySource::new();
    assert_eq!(ids.fresh(), 0);
    assert_eq!(ids.fresh(), 1);
    assert_eq!(ids.fresh(), 2);
}
