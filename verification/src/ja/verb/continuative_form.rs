//! The continuative stem, under its own name.

use crate::ja::verb::conjugate::{derive_stem, stem_is, stem_of, StemForm};
use crate::ja::verb::infer_conjugation_type::{ConjugationType, VerbError};
use vstd::prelude::*;

verus! {

/// The continuative stem of `verb`, conjugated as `conjugation`.
pub fn continuative_form(verb: &str, conjugation: ConjugationType) -> (result: Result<
    String,
    VerbError,
>)
    ensures
        stem_is(result, stem_of(verb@, conjugation, StemForm::Continuative)),
{
    derive_stem(verb, conjugation, StemForm::Continuative)
}

} // verus!
