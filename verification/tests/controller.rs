use form_validation::aggregator::{IdentitySource, ValidityAggregator};
use form_validation::controller::FieldController;
use form_validation::form::AppData;
use form_validation::formatters::{NameFormatter, TelephoneFormatter};
use form_validation::outcome::{DisplayState, ValidationOutcome};
use form_validation::validators::{letters, numbers};

#[test]
fn fresh_controller_is_empty_and_invalid() {
    let mut agg = ValidityAggregator::new();
    let c = FieldController::new(NameFormatter, 0, &mut agg);
    assert_eq!(c.value.field, "");
    assert!(!c.value.valid);
    assert_eq!(c.display, DisplayState::Hidden);
    assert!(!agg.aggregate());
}

#[test]
fn edit_updates_field_display_and_aggregate() {
    let mut agg = ValidityAggregator::new();
    let mut ids = IdentitySource::new();
    let mut name = FieldController::new(NameFormatter, ids.fresh(), &mut agg);

    let outcome = name.on_edit("jane", &mut agg);
    assert_eq!(outcome, ValidationOutcome::Success);
    assert_eq!(name.value.field, "JANE");
    assert!(name.value.valid);
    assert_eq!(name.display, DisplayState::Hidden);
    assert!(agg.aggregate());

    let outcome = name.on_edit("jane2", &mut agg);
    assert_eq!(
        outcome,
        ValidationOutcome::InvalidFormat("A name can not contain numbers".to_string())
    );
    assert_eq!(name.value.field, "JANE2");
    assert!(!name.value.valid);
    assert_eq!(
        name.display,
        DisplayState::Visible("A name can not contain numbers".to_string())
    );
    assert!(!agg.aggregate());

    let outcome = name.on_edit("", &mut agg);
    assert_eq!(outcome, ValidationOutcome::EmptyField);
    assert_eq!(
        name.display,
        DisplayState::Visible("Field can't be empty".to_string())
    );
    assert!(!agg.aggregate());
}

#[test]
fn two_controllers_gate_submission() {
    let mut agg = ValidityAggregator::new();
    let mut ids = IdentitySource::new();
    let mut name = FieldController::new(NameFormatter, ids.fresh(), &mut agg);
    let mut tel = FieldController::new(TelephoneFormatter, ids.fresh(), &mut agg);
    assert!(!agg.aggregate());

    name.on_edit("Ada Lovelace", &mut agg);
    assert!(!agg.aggregate());

    tel.on_edit("+44 7911 123456", &mut agg);
    assert!(agg.aggregate());
    assert_eq!(tel.value.field, "+44 7911 123456");

    name.on_edit("Ada 1852", &mut agg);
    assert!(!agg.aggregate());
}

#[test]
fn telephone_controller_keeps_text_as_typed() {
    let mut agg = ValidityAggregator::new();
    let mut tel = FieldController::new(TelephoneFormatter, 5, &mut agg);
    let outcome = tel.on_edit("abc", &mut agg);
    assert_eq!(
        outcome,
        ValidationOutcome::InvalidFormat("Telephone number not valid".to_string())
    );
    assert_eq!(tel.value.field, "abc");
    assert!(!tel.value.valid);
}

#[test]
fn app_data_submit_gate() {
    let mut data = AppData::default();
    assert!(!data.submit_enabled());

    data.name.field = "grace".to_string();
    letters(&mut data.name);
    assert_eq!(data.name.field, "GRACE");
    assert!(!data.submit_enabled());

    data.telephone.field = "+44 12345".to_string();
    numbers(&mut data.telephone);
    assert!(data.submit_enabled());

    data.telephone.field = "12a45".to_string();
    numbers(&mut data.telephone);
    assert!(!data.submit_enabled());
}
