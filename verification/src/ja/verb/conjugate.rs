//! Stems of a verb, derived from its dictionary form and its class.
//!
//! The irrealis stem is the one that the negative is built on (書く gives
//! 書か, as in 書かない). The continuative stem is the one that the polite
//! form is built on (書く gives 書き, as in 書きます).

use crate::ja::verb::infer_conjugation_type::{
    conjugation_of, ends_in_suru, infer_conjugation_type, is_kuru, is_kuru_verb, suru,
    ConjugationType, VerbError,
};
use crate::text::{to_chars, to_text};
use vstd::prelude::*;
use vstd::slice::slice_subrange;

verus! {

/// The stem to derive.
#[derive(Debug, PartialEq, Eq, Clone, Copy, Structural)]
pub enum StemForm {
    /// The stem of the negative.
    Irrealis,
    /// The stem of the polite form.
    Continuative,
}

/// The kana that `form` selects.
pub open spec fn by_form(form: StemForm, irrealis: char, continuative: char) -> char {
    match form {
        StemForm::Irrealis => irrealis,
        StemForm::Continuative => continuative,
    }
}

/// The kana that replaces the last kana of a five-row verb: the one of the
/// same column in the a-row for the irrealis stem (わ for う), in the i-row
/// for the continuative stem. `None` where no five-row verb ends in `last`.
pub open spec fn godan_ending(last: char, form: StemForm) -> Option<char> {
    match last {
        'う' => Some(by_form(form, 'わ', 'い')),
        'く' => Some(by_form(form, 'か', 'き')),
        'ぐ' => Some(by_form(form, 'が', 'ぎ')),
        'す' => Some(by_form(form, 'さ', 'し')),
        'つ' => Some(by_form(form, 'た', 'ち')),
        'ぬ' => Some(by_form(form, 'な', 'に')),
        'ふ' => Some(by_form(form, 'は', 'ひ')),
        'ぶ' => Some(by_form(form, 'ば', 'び')),
        'む' => Some(by_form(form, 'ま', 'み')),
        'る' => Some(by_form(form, 'ら', 'り')),
        _ => None,
    }
}

/// The stem of `verb`, conjugated as `conjugation`.
///
/// Nothing is no verb. A five-row verb changes its last kana. A one-row
/// verb drops its る. A する verb puts し in the place of する. 来る gives こ or
/// き. A verb that does not end as its class requires has no stem.
pub open spec fn stem_of(verb: Seq<char>, conjugation: ConjugationType, form: StemForm) -> Result<
    Seq<char>,
    VerbError,
> {
    if verb.len() == 0 {
        Err(VerbError::NotAVerb)
    } else {
        match conjugation {
            ConjugationType::Godan => match godan_ending(verb.last(), form) {
                Some(ending) => Ok(verb.drop_last().push(ending)),
                None => Err(VerbError::UnknownConjugation),
            },
            ConjugationType::KamiIchidan | ConjugationType::ShimoIchidan => if verb.last() == 'る' {
                Ok(verb.drop_last())
            } else {
                Err(VerbError::UnknownConjugation)
            },
            ConjugationType::Sahen => if suru().is_suffix_of(verb) {
                Ok(verb.take(verb.len() - 2).push('し'))
            } else {
                Err(VerbError::UnknownConjugation)
            },
            ConjugationType::Kahen => if is_kuru(verb) {
                Ok(seq![by_form(form, 'こ', 'き')])
            } else {
                Err(VerbError::UnknownConjugation)
            },
        }
    }
}

/// The stem of `verb` in the class that its ending points to.
pub open spec fn inferred_stem_of(verb: Seq<char>, form: StemForm) -> Result<Seq<char>, VerbError> {
    match conjugation_of(verb) {
        Ok(conjugation) => stem_of(verb, conjugation, form),
        Err(e) => Err(e),
    }
}

/// Whether `result` is `expected`, a string being taken by its characters.
pub open spec fn stem_is(result: Result<String, VerbError>, expected: Result<Seq<char>, VerbError>) -> bool {
    match result {
        Ok(stem) => expected == Ok::<Seq<char>, VerbError>(stem@),
        Err(e) => expected == Err::<Seq<char>, VerbError>(e),
    }
}

/// The kana that replaces the last kana of a five-row verb.
fn godan_stem_ending(last: char, form: StemForm) -> (ending: Option<char>)
    ensures
        ending == godan_ending(last, form),
{
    match form {
        StemForm::Irrealis => match last {
            'う' => Some('わ'),
            'く' => Some('か'),
            'ぐ' => Some('が'),
            'す' => Some('さ'),
            'つ' => Some('た'),
            'ぬ' => Some('な'),
            'ふ' => Some('は'),
            'ぶ' => Some('ば'),
            'む' => Some('ま'),
            'る' => Some('ら'),
            _ => None,
        },
        StemForm::Continuative => match last {
            'う' => Some('い'),
            'く' => Some('き'),
            'ぐ' => Some('ぎ'),
            'す' => Some('し'),
            'つ' => Some('ち'),
            'ぬ' => Some('に'),
            'ふ' => Some('ひ'),
            'ぶ' => Some('び'),
            'む' => Some('み'),
            'る' => Some('り'),
            _ => None,
        },
    }
}

/// Derives the stem of `verb`, conjugated as `conjugation`.
pub fn derive_stem(verb: &str, conjugation: ConjugationType, form: StemForm) -> (result: Result<
    String,
    VerbError,
>)
    ensures
        stem_is(result, stem_of(verb@, conjugation, form)),
{
    let chars = to_chars(verb);
    let len = chars.len();
    if len == 0 {
        return Err(VerbError::NotAVerb);
    }
    match conjugation {
        ConjugationType::Godan => {
            let last_char = chars[len - 1];
            match godan_stem_ending(last_char, form) {
                Some(new_ending) => {
                    let mut stem = to_text(slice_subrange(chars.as_slice(), 0, len - 1));
                    stem.push(new_ending);
                    Ok(stem)
                },
                None => Err(VerbError::UnknownConjugation),
            }
        },
        ConjugationType::KamiIchidan | ConjugationType::ShimoIchidan => {
            if chars[len - 1] != 'る' {
                return Err(VerbError::UnknownConjugation);
            }
            Ok(to_text(slice_subrange(chars.as_slice(), 0, len - 1)))
        },
        ConjugationType::Sahen => {
            if ends_in_suru(chars.as_slice()) {
                let mut stem = to_text(slice_subrange(chars.as_slice(), 0, len - 2));
                stem.push('し');
                Ok(stem)
            } else {
                Err(VerbError::UnknownConjugation)
            }
        },
        ConjugationType::Kahen => {
            if is_kuru_verb(chars.as_slice()) {
                let mut stem = String::new();
                stem.push(
                    match form {
                        StemForm::Irrealis => 'こ',
                        StemForm::Continuative => 'き',
                    },
                );
                Ok(stem)
            } else {
                Err(VerbError::UnknownConjugation)
            }
        },
    }
}

/// The irrealis stem of `verb`, conjugated as `conjugation`.
pub fn get_irrealis_form(verb: &str, conjugation: ConjugationType) -> (result: Result<
    String,
    VerbError,
>)
    ensures
        stem_is(result, stem_of(verb@, conjugation, StemForm::Irrealis)),
{
    derive_stem(verb, conjugation, StemForm::Irrealis)
}

/// Guesses the class of `verb` and derives its stem in that class. Fails as
/// the guess fails, and never afterwards.
pub fn infer_and_derive_stem(verb: &str, form: StemForm) -> (result: Result<String, VerbError>)
    ensures
        stem_is(result, inferred_stem_of(verb@, form)),
        result is Ok <==> conjugation_of(verb@) is Ok,
{
    proof {
        lemma_inferred_class_has_stem(verb@, form);
    }
    match infer_conjugation_type(verb) {
        Ok(conjugation) => derive_stem(verb, conjugation, form),
        Err(e) => Err(e),
    }
}

/// A verb has both stems in the class that its own ending points to.
pub proof fn lemma_inferred_class_has_stem(verb: Seq<char>, form: StemForm)
    ensures
        conjugation_of(verb) matches Ok(conjugation) ==> stem_of(verb, conjugation, form) is Ok,
        inferred_stem_of(verb, form) is Ok <==> conjugation_of(verb) is Ok,
{
}

} // verus!
