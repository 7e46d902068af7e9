//! The field controller: binds a validator to one field's value and keeps
//! the field state, the error display, and the aggregator in step on every
//! edit.

use vstd::prelude::*;
use crate::aggregator::{FieldIdentity, ValidityAggregator};
use crate::form::FormField;
use crate::outcome::{present, presents, DisplayState, ValidationOutcome};
use crate::validators::Validator;

verus! {

/// Binds one field's value to a validation policy. On every edit it
/// revalidates, stores the normalized text and the new validity, refreshes
/// the error display, and reports the validity to the aggregator.
pub struct FieldController<V: Validator> {
    pub validator: V,
    pub id: FieldIdentity,
    pub value: FormField,
    pub display: DisplayState,
}

impl<V: Validator> FieldController<V> {
    /// A fresh controller: empty text, invalid, nothing displayed. The new
    /// field reports its initial validity at once — pessimistically
    /// invalid — so the registry gains an entry for it on creation.
    pub fn new(validator: V, id: FieldIdentity, aggregator: &mut ValidityAggregator) -> (r: Self)
        requires
            old(aggregator).wf(),
        ensures
            final(aggregator).wf(),
            final(aggregator)@ == old(aggregator)@.insert(id, false),
            r.id == id,
            r.validator == validator,
            r.value.field@ == Seq::<char>::empty(),
            !r.value.valid,
            r.display is Hidden,
    {
        aggregator.report(id, false);
        FieldController {
            validator,
            id,
            value: FormField::default(),
            display: DisplayState::Hidden,
        }
    }

    /// One edit, atomically from the caller's view: runs the bound
    /// validator on the new text, stores the normalized text and the new
    /// validity, sets or clears the error display, and reports the
    /// validity to the aggregator — whether or not it changed (the notify
    /// is idempotent, never skipped). Returns the validation outcome.
    pub fn on_edit(&mut self, new_text: &str, aggregator: &mut ValidityAggregator) -> (r:
        ValidationOutcome)
        requires
            old(aggregator).wf(),
        ensures
            final(aggregator).wf(),
            new_text@.len() == 0 ==> r is EmptyField,
            new_text@.len() > 0 && old(self).validator.accepts(new_text@) ==> r is Success,
            new_text@.len() > 0 && !old(self).validator.accepts(new_text@) ==> (r matches
                ValidationOutcome::InvalidFormat(m) && m@ == old(
                self,
            ).validator.rejection_message()),
            final(self).value.field@ == old(self).validator.normalized(new_text@),
            final(self).value.valid == (r is Success),
            presents(r, final(self).display),
            final(self).id == old(self).id,
            final(self).validator == old(self).validator,
            final(aggregator)@ == old(aggregator)@.insert(old(self).id, r is Success),
    {
        let outcome = self.validator.validate(new_text);
        let valid = match &outcome {
            ValidationOutcome::Success => true,
            _ => false,
        };
        self.value.field = self.validator.apply_normalization(new_text);
        self.value.valid = valid;
        self.display = present(&outcome);
        aggregator.report(self.id, valid);
        outcome
    }
}

} // verus!
