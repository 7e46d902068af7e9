//! The per-field and per-form data the validation logic works on.

use vstd::prelude::*;

verus! {

/// One input field: its current raw text and whether the most recent
/// validation run accepted that text.
#[derive(Debug, Clone)]
pub struct FormField {
    pub field: String,
    pub valid: bool,
}

impl Default for FormField {
    /// A fresh field holds empty text and counts as invalid until validated.
    fn default() -> (r: Self)
        ensures
            r.field@ == Seq::<char>::empty(),
            !r.valid,
    {
        FormField { field: String::new(), valid: false }
    }
}

/// The two-field form: a name and a telephone number.
#[derive(Debug, Clone)]
pub struct AppData {
    pub name: FormField,
    pub telephone: FormField,
}

impl Default for AppData {
    /// A fresh form holds two fresh fields, both empty and invalid.
    fn default() -> (r: Self)
        ensures
            r.name.field@ == Seq::<char>::empty(),
            !r.name.valid,
            r.telephone.field@ == Seq::<char>::empty(),
            !r.telephone.valid,
    {
        AppData { name: FormField::default(), telephone: FormField::default() }
    }
}

impl AppData {
    /// Whether the submit action is enabled: both fields must be valid.
    pub fn submit_enabled(&self) -> (r: bool)
        ensures
            r == (self.name.valid && self.telephone.valid),
    {
        self.name.valid && self.telephone.valid
    }
}

} // verus!
