//! Verbs: their conjugation classes and their stems.

pub mod infer_conjugation_type;
pub use infer_conjugation_type::{infer_conjugation_type, ConjugationType, VerbError};

pub mod conjugate;
pub use conjugate::{derive_stem, get_irrealis_form, infer_and_derive_stem, StemForm};

pub mod continuative_form;
pub use continuative_form::continuative_form;
