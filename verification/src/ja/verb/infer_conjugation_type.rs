//! The conjugation class of a verb, guessed from its dictionary form.
//!
//! The guess goes by the written ending alone. It cannot tell apart two
//! verbs that are written alike and conjugate differently; the commonest
//! verbs in る that look like one-row verbs and are not are listed by name.

use crate::text::{ends_with, same_text, to_chars};
use vstd::prelude::*;

verus! {

/// The five conjugation classes.
#[derive(Debug, PartialEq, Eq, Clone, Copy, Structural)]
pub enum ConjugationType {
    /// Five-row verbs.
    Godan,
    /// Upper one-row verbs.
    KamiIchidan,
    /// Lower one-row verbs.
    ShimoIchidan,
    /// The irregular する and its compounds.
    Sahen,
    /// The irregular 来る.
    Kahen,
}

/// Why a word could not be classed or conjugated.
#[derive(Debug, PartialEq, Eq, Structural)]
pub enum VerbError {
    /// The word does not have the shape of a verb.
    NotAVerb,
    /// The word does not end as its class requires.
    UnknownConjugation,
}

/// Whether `c` is a kana of the i-row, or 見.
pub open spec fn i_sound(c: char) -> bool {
    c == 'い' || c == 'き' || c == 'ぎ' || c == 'し' || c == 'じ' || c == 'ち' || c == 'ぢ' || c == 'に'
        || c == 'ひ' || c == 'び' || c == 'ぴ' || c == 'み' || c == 'り' || c == '見'
}

/// Whether `c` is a kana of the e-row, or 出 or 寝.
pub open spec fn e_sound(c: char) -> bool {
    c == 'え' || c == 'け' || c == 'げ' || c == 'せ' || c == 'ぜ' || c == 'て' || c == 'で' || c == 'ね'
        || c == 'へ' || c == 'べ' || c == 'ぺ' || c == 'め' || c == 'れ' || c == '出' || c == '寝'
}

/// Whether a verb ending in `c` is a five-row verb whatever comes before.
pub open spec fn godan_only_ending(c: char) -> bool {
    c == 'う' || c == 'く' || c == 'ぐ' || c == 'す' || c == 'つ' || c == 'ぬ' || c == 'ぶ' || c == 'む'
}

/// する itself, as characters.
pub open spec fn suru() -> Seq<char> {
    seq!['す', 'る']
}

/// Whether `verb` is one of the two spellings of 来る.
pub open spec fn is_kuru(verb: Seq<char>) -> bool {
    verb == seq!['く', 'る'] || verb == seq!['来', 'る']
}

/// Whether `verb` is listed as a five-row verb in spite of its ending.
pub open spec fn is_godan_exception(verb: Seq<char>) -> bool {
    ||| verb == seq!['入', 'る']
    ||| verb == seq!['要', 'る']
    ||| verb == seq!['い', 'る']
    ||| verb == seq!['切', 'る']
    ||| verb == seq!['千', '切', 'る']
    ||| verb == seq!['限', 'る']
    ||| verb == seq!['か', 'ぎ', 'る']
    ||| verb == seq!['握', 'る']
    ||| verb == seq!['に', 'ぎ', 'る']
    ||| verb == seq!['知', 'る']
    ||| verb == seq!['し', 'る']
    ||| verb == seq!['走', 'る']
    ||| verb == seq!['は', 'し', 'る']
    ||| verb == seq!['交', 'じ', 'る']
    ||| verb == seq!['混', 'じ', 'る']
    ||| verb == seq!['ま', 'じ', 'る']
    ||| verb == seq!['散', 'る']
    ||| verb == seq!['ち', 'る']
    ||| verb == seq!['帰', 'る']
    ||| verb == seq!['蹴', 'る']
    ||| verb == seq!['け', 'る']
    ||| verb == seq!['焦', 'る']
    ||| verb == seq!['あ', 'せ', 'る']
    ||| verb == seq!['減', 'る']
    ||| verb == seq!['へ', 'る']
    ||| verb == seq!['滑', 'る']
    ||| verb == seq!['す', 'べ', 'る']
    ||| verb == seq!['喋', 'る']
    ||| verb == seq!['し', 'ゃ', 'べ', 'る']
}

/// The class that the ending of `verb` points to.
///
/// In order: nothing is no verb; anything ending in する is a する verb; the
/// two spellings of 来る are 来る; a verb ending in one of う く ぐ す つ ぬ ぶ む
/// is five-row; a verb ending in る is five-row if listed, and else goes by
/// the character before る: upper one-row after an i-sound, lower one-row
/// after an e-sound, five-row after anything else. A bare る, with nothing
/// before it, is no verb, and neither is a word with any other ending.
pub open spec fn conjugation_of(verb: Seq<char>) -> Result<ConjugationType, VerbError> {
    if verb.len() == 0 {
        Err(VerbError::NotAVerb)
    } else if suru().is_suffix_of(verb) {
        Ok(ConjugationType::Sahen)
    } else if is_kuru(verb) {
        Ok(ConjugationType::Kahen)
    } else if godan_only_ending(verb.last()) {
        Ok(ConjugationType::Godan)
    } else if verb.last() == 'る' {
        if is_godan_exception(verb) {
            Ok(ConjugationType::Godan)
        } else if verb.len() < 2 {
            Err(VerbError::NotAVerb)
        } else if i_sound(verb[verb.len() - 2]) {
            Ok(ConjugationType::KamiIchidan)
        } else if e_sound(verb[verb.len() - 2]) {
            Ok(ConjugationType::ShimoIchidan)
        } else {
            Ok(ConjugationType::Godan)
        }
    } else {
        Err(VerbError::NotAVerb)
    }
}

/// Whether `c` is a kana of the i-row, or 見.
pub fn is_i_sound(c: char) -> (b: bool)
    ensures
        b == i_sound(c),
{
    matches!(
        c,
        'い' | 'き' | 'ぎ' | 'し' | 'じ' | 'ち' | 'ぢ' | 'に' | 'ひ' | 'び' | 'ぴ' | 'み' | 'り' | '見'
    )
}

/// Whether `c` is a kana of the e-row, or 出 or 寝.
pub fn is_e_sound(c: char) -> (b: bool)
    ensures
        b == e_sound(c),
{
    matches!(
        c,
        'え' | 'け' | 'げ' | 'せ' | 'ぜ' | 'て' | 'で' | 'ね' | 'へ' | 'べ' | 'ぺ' | 'め' | 'れ' | '出' | '寝'
    )
}

/// Whether `verb` is する or ends in it.
pub fn ends_in_suru(verb: &[char]) -> (b: bool)
    ensures
        b == suru().is_suffix_of(verb@),
{
    proof {
        reveal_strlit("する");
    }
    ends_with(verb, "する")
}

/// Whether `verb` is くる or 来る.
pub fn is_kuru_verb(verb: &[char]) -> (b: bool)
    ensures
        b == is_kuru(verb@),
{
    proof {
        reveal_strlit("くる");
        reveal_strlit("来る");
        assert("くる"@ =~= seq!['く', 'る']);
        assert("来る"@ =~= seq!['来', 'る']);
    }
    same_text(verb, "くる") || same_text(verb, "来る")
}

/// Whether `verb` is on the list of five-row verbs that end like one-row
/// verbs.
fn is_listed_godan(verb: &[char]) -> (b: bool)
    ensures
        b == is_godan_exception(verb@),
{
    proof {
        reveal_strlit("入る");
        reveal_strlit("要る");
        reveal_strlit("いる");
        reveal_strlit("切る");
        reveal_strlit("千切る");
        reveal_strlit("限る");
        reveal_strlit("かぎる");
        reveal_strlit("握る");
        reveal_strlit("にぎる");
        reveal_strlit("知る");
        reveal_strlit("しる");
        reveal_strlit("走る");
        reveal_strlit("はしる");
        reveal_strlit("交じる");
        reveal_strlit("混じる");
        reveal_strlit("まじる");
        reveal_strlit("散る");
        reveal_strlit("ちる");
        reveal_strlit("帰る");
        reveal_strlit("蹴る");
        reveal_strlit("ける");
        reveal_strlit("焦る");
        reveal_strlit("あせる");
        reveal_strlit("減る");
        reveal_strlit("へる");
        reveal_strlit("滑る");
        reveal_strlit("すべる");
        reveal_strlit("喋る");
        reveal_strlit("しゃべる");
        assert("入る"@ =~= seq!['入', 'る']);
        assert("要る"@ =~= seq!['要', 'る']);
        assert("いる"@ =~= seq!['い', 'る']);
        assert("切る"@ =~= seq!['切', 'る']);
        assert("千切る"@ =~= seq!['千', '切', 'る']);
        assert("限る"@ =~= seq!['限', 'る']);
        assert("かぎる"@ =~= seq!['か', 'ぎ', 'る']);
        assert("握る"@ =~= seq!['握', 'る']);
        assert("にぎる"@ =~= seq!['に', 'ぎ', 'る']);
        assert("知る"@ =~= seq!['知', 'る']);
        assert("しる"@ =~= seq!['し', 'る']);
        assert("走る"@ =~= seq!['走', 'る']);
        assert("はしる"@ =~= seq!['は', 'し', 'る']);
        assert("交じる"@ =~= seq!['交', 'じ', 'る']);
        assert("混じる"@ =~= seq!['混', 'じ', 'る']);
        assert("まじる"@ =~= seq!['ま', 'じ', 'る']);
        assert("散る"@ =~= seq!['散', 'る']);
        assert("ちる"@ =~= seq!['ち', 'る']);
        assert("帰る"@ =~= seq!['帰', 'る']);
        assert("蹴る"@ =~= seq!['蹴', 'る']);
        assert("ける"@ =~= seq!['け', 'る']);
        assert("焦る"@ =~= seq!['焦', 'る']);
        assert("あせる"@ =~= seq!['あ', 'せ', 'る']);
        assert("減る"@ =~= seq!['減', 'る']);
        assert("へる"@ =~= seq!['へ', 'る']);
        assert("滑る"@ =~= seq!['滑', 'る']);
        assert("すべる"@ =~= seq!['す', 'べ', 'る']);
        assert("喋る"@ =~= seq!['喋', 'る']);
        assert("しゃべる"@ =~= seq!['し', 'ゃ', 'べ', 'る']);
    }
    same_text(verb, "入る") || same_text(verb, "要る") || same_text(verb, "いる") || same_text(
        verb,
        "切る",
    ) || same_text(verb, "千切る") || same_text(verb, "限る") || same_text(verb, "かぎる")
        || same_text(verb, "握る") || same_text(verb, "にぎる") || same_text(verb, "知る")
        || same_text(verb, "しる") || same_text(verb, "走る") || same_text(verb, "はしる")
        || same_text(verb, "交じる") || same_text(verb, "混じる") || same_text(verb, "まじる")
        || same_text(verb, "散る") || same_text(verb, "ちる") || same_text(verb, "帰る")
        || same_text(verb, "蹴る") || same_text(verb, "ける") || same_text(verb, "焦る")
        || same_text(verb, "あせる") || same_text(verb, "減る") || same_text(verb, "へる")
        || same_text(verb, "滑る") || same_text(verb, "すべる") || same_text(verb, "喋る")
        || same_text(verb, "しゃべる")
}

/// Guesses the conjugation class of `verb` from its ending.
pub fn infer_conjugation_type(verb: &str) -> (class: Result<ConjugationType, VerbError>)
    ensures
        class == conjugation_of(verb@),
{
    let chars = to_chars(verb);
    let len = chars.len();
    if len == 0 {
        return Err(VerbError::NotAVerb);
    }
    let last_char = chars[len - 1];
    if ends_in_suru(chars.as_slice()) {
        return Ok(ConjugationType::Sahen);
    }
    if is_kuru_verb(chars.as_slice()) {
        return Ok(ConjugationType::Kahen);
    }
    match last_char {
        'う' | 'く' | 'ぐ' | 'す' | 'つ' | 'ぬ' | 'ぶ' | 'む' => Ok(ConjugationType::Godan),
        'る' => {
            if is_listed_godan(chars.as_slice()) {
                return Ok(ConjugationType::Godan);
            }
            if len < 2 {
                return Err(VerbError::NotAVerb);
            }
            let prev_char = chars[len - 2];
            if is_i_sound(prev_char) {
                Ok(ConjugationType::KamiIchidan)
            } else if is_e_sound(prev_char) {
                Ok(ConjugationType::ShimoIchidan)
            } else {
                Ok(ConjugationType::Godan)
            }
        },
        _ => Err(VerbError::NotAVerb),
    }
}

} // verus!
