//! Form-field validation: pure validators for name and telephone inputs,
//! uppercase normalization for names, and a validity aggregator that
//! combines per-field validity into a single flag gating submission.

pub mod aggregator;
pub mod controller;
pub mod form;
pub mod formatters;
pub mod outcome;
pub mod text;
pub mod validators;
