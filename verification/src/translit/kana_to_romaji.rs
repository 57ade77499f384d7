//! Katakana to romaji, under either romanization system.
//!
//! The encoder reads its input one mora at a time, left to right, and never
//! goes back. A pair of kana that forms a digraph is spelled as one
//! syllable; a small tsu doubles the consonant of the mora after it; every
//! other kana is spelled by itself. A character that is no kana is left out.

use crate::text::to_chars;
use crate::translit::laws::{lemma_encode_is_romaji, lemma_encode_len, lemma_spelling_of_kana};
use vstd::prelude::*;
use vstd::slice::slice_subrange;

verus! {

/// The romanization system an encoding follows.
#[derive(Clone, Copy, Debug, PartialEq, Eq, Structural)]
pub enum System {
    /// Hepburn romanization: シ is `shi`, チ is `chi`, ジ is `ji`.
    Hepburn,
    /// Kunrei romanization: シ is `si`, チ is `ti`, ジ is `zi`.
    Kunrei,
}

/// The geminate marker: it has no spelling of its own.
pub const SMALL_TSU: char = 'ッ';

/// The spelling that `system` selects where the two systems differ.
pub open spec fn by_system(system: System, hepburn: Seq<char>, kunrei: Seq<char>) -> Seq<char> {
    match system {
        System::Hepburn => hepburn,
        System::Kunrei => kunrei,
    }
}

/// The spelling of one kana; empty for a character outside the repertoire.
#[verifier::opaque]
pub open spec fn single_romaji(c: char, system: System) -> Seq<char> {
    match c {
        'ア' => seq!['a'],
        'イ' => seq!['i'],
        'ウ' => seq!['u'],
        'エ' => seq!['e'],
        'オ' => seq!['o'],
        'カ' => seq!['k', 'a'],
        'キ' => seq!['k', 'i'],
        'ク' => seq!['k', 'u'],
        'ケ' => seq!['k', 'e'],
        'コ' => seq!['k', 'o'],
        'サ' => seq!['s', 'a'],
        'シ' => by_system(system, seq!['s', 'h', 'i'], seq!['s', 'i']),
        'ス' => seq!['s', 'u'],
        'セ' => seq!['s', 'e'],
        'ソ' => seq!['s', 'o'],
        'タ' => seq!['t', 'a'],
        'チ' => by_system(system, seq!['c', 'h', 'i'], seq!['t', 'i']),
        'ツ' => by_system(system, seq!['t', 's', 'u'], seq!['t', 'u']),
        'テ' => seq!['t', 'e'],
        'ト' => seq!['t', 'o'],
        'ナ' => seq!['n', 'a'],
        'ニ' => seq!['n', 'i'],
        'ヌ' => seq!['n', 'u'],
        'ネ' => seq!['n', 'e'],
        'ノ' => seq!['n', 'o'],
        'ハ' => seq!['h', 'a'],
        'ヒ' => seq!['h', 'i'],
        'フ' => by_system(system, seq!['f', 'u'], seq!['h', 'u']),
        'ヘ' => seq!['h', 'e'],
        'ホ' => seq!['h', 'o'],
        'マ' => seq!['m', 'a'],
        'ミ' => seq!['m', 'i'],
        'ム' => seq!['m', 'u'],
        'メ' => seq!['m', 'e'],
        'モ' => seq!['m', 'o'],
        'ヤ' => seq!['y', 'a'],
        'ユ' => seq!['y', 'u'],
        'ヨ' => seq!['y', 'o'],
        'ラ' => seq!['r', 'a'],
        'リ' => seq!['r', 'i'],
        'ル' => seq!['r', 'u'],
        'レ' => seq!['r', 'e'],
        'ロ' => seq!['r', 'o'],
        'ワ' => seq!['w', 'a'],
        'ヲ' => seq!['w', 'o'],
        'ン' => seq!['n'],
        'ガ' => seq!['g', 'a'],
        'ギ' => seq!['g', 'i'],
        'グ' => seq!['g', 'u'],
        'ゲ' => seq!['g', 'e'],
        'ゴ' => seq!['g', 'o'],
        'ザ' => seq!['z', 'a'],
        'ジ' => by_system(system, seq!['j', 'i'], seq!['z', 'i']),
        'ズ' => seq!['z', 'u'],
        'ゼ' => seq!['z', 'e'],
        'ゾ' => seq!['z', 'o'],
        'ダ' => seq!['d', 'a'],
        'ヂ' => by_system(system, seq!['j', 'i'], seq!['z', 'i']),
        'ヅ' => seq!['z', 'u'],
        'デ' => seq!['d', 'e'],
        'ド' => seq!['d', 'o'],
        'バ' => seq!['b', 'a'],
        'ビ' => seq!['b', 'i'],
        'ブ' => seq!['b', 'u'],
        'ベ' => seq!['b', 'e'],
        'ボ' => seq!['b', 'o'],
        'パ' => seq!['p', 'a'],
        'ピ' => seq!['p', 'i'],
        'プ' => seq!['p', 'u'],
        'ペ' => seq!['p', 'e'],
        'ポ' => seq!['p', 'o'],
        'ァ' => seq!['a'],
        'ィ' => seq!['i'],
        'ゥ' => seq!['u'],
        'ェ' => seq!['e'],
        'ォ' => seq!['o'],
        'ャ' => seq!['y', 'a'],
        'ュ' => seq!['y', 'u'],
        'ョ' => seq!['y', 'o'],
        'ヮ' => seq!['w', 'a'],
        'ー' => seq!['-'],
        _ => Seq::empty(),
    }
}

/// The spelling of a pair of kana that forms one syllable, if it does.
#[verifier::opaque]
pub open spec fn combo_romaji(c1: char, c2: char, system: System) -> Option<Seq<char>> {
    match (c1, c2) {
        ('キ', 'ャ') => Some(seq!['k', 'y', 'a']),
        ('キ', 'ュ') => Some(seq!['k', 'y', 'u']),
        ('キ', 'ョ') => Some(seq!['k', 'y', 'o']),
        ('シ', 'ャ') => Some(by_system(system, seq!['s', 'h', 'a'], seq!['s', 'y', 'a'])),
        ('シ', 'ュ') => Some(by_system(system, seq!['s', 'h', 'u'], seq!['s', 'y', 'u'])),
        ('シ', 'ョ') => Some(by_system(system, seq!['s', 'h', 'o'], seq!['s', 'y', 'o'])),
        ('チ', 'ャ') => Some(by_system(system, seq!['c', 'h', 'a'], seq!['t', 'y', 'a'])),
        ('チ', 'ュ') => Some(by_system(system, seq!['c', 'h', 'u'], seq!['t', 'y', 'u'])),
        ('チ', 'ョ') => Some(by_system(system, seq!['c', 'h', 'o'], seq!['t', 'y', 'o'])),
        ('ニ', 'ャ') => Some(seq!['n', 'y', 'a']),
        ('ニ', 'ュ') => Some(seq!['n', 'y', 'u']),
        ('ニ', 'ョ') => Some(seq!['n', 'y', 'o']),
        ('ヒ', 'ャ') => Some(seq!['h', 'y', 'a']),
        ('ヒ', 'ュ') => Some(seq!['h', 'y', 'u']),
        ('ヒ', 'ョ') => Some(seq!['h', 'y', 'o']),
        ('ミ', 'ャ') => Some(seq!['m', 'y', 'a']),
        ('ミ', 'ュ') => Some(seq!['m', 'y', 'u']),
        ('ミ', 'ョ') => Some(seq!['m', 'y', 'o']),
        ('リ', 'ャ') => Some(seq!['r', 'y', 'a']),
        ('リ', 'ュ') => Some(seq!['r', 'y', 'u']),
        ('リ', 'ョ') => Some(seq!['r', 'y', 'o']),
        ('ギ', 'ャ') => Some(seq!['g', 'y', 'a']),
        ('ギ', 'ュ') => Some(seq!['g', 'y', 'u']),
        ('ギ', 'ョ') => Some(seq!['g', 'y', 'o']),
        ('ジ', 'ャ') => Some(by_system(system, seq!['j', 'a'], seq!['z', 'y', 'a'])),
        ('ジ', 'ュ') => Some(by_system(system, seq!['j', 'u'], seq!['z', 'y', 'u'])),
        ('ジ', 'ョ') => Some(by_system(system, seq!['j', 'o'], seq!['z', 'y', 'o'])),
        ('ビ', 'ャ') => Some(seq!['b', 'y', 'a']),
        ('ビ', 'ュ') => Some(seq!['b', 'y', 'u']),
        ('ビ', 'ョ') => Some(seq!['b', 'y', 'o']),
        ('ピ', 'ャ') => Some(seq!['p', 'y', 'a']),
        ('ピ', 'ュ') => Some(seq!['p', 'y', 'u']),
        ('ピ', 'ョ') => Some(seq!['p', 'y', 'o']),
        ('ヂ', 'ャ') => Some(by_system(system, seq!['j', 'a'], seq!['z', 'y', 'a'])),
        ('ヂ', 'ュ') => Some(by_system(system, seq!['j', 'u'], seq!['z', 'y', 'u'])),
        ('ヂ', 'ョ') => Some(by_system(system, seq!['j', 'o'], seq!['z', 'y', 'o'])),
        ('テ', 'ィ') => Some(seq!['t', 'i']),
        ('デ', 'ィ') => Some(seq!['d', 'i']),
        ('ト', 'ゥ') => Some(seq!['t', 'u']),
        ('ド', 'ゥ') => Some(seq!['d', 'u']),
        ('フ', 'ァ') => Some(seq!['f', 'a']),
        ('フ', 'ィ') => Some(seq!['f', 'i']),
        ('フ', 'ェ') => Some(seq!['f', 'e']),
        ('フ', 'ォ') => Some(seq!['f', 'o']),
        ('ウ', 'ィ') => Some(seq!['w', 'i']),
        ('ウ', 'ェ') => Some(seq!['w', 'e']),
        ('ウ', 'ォ') => Some(seq!['w', 'o']),
        ('シ', 'ェ') => Some(by_system(system, seq!['s', 'h', 'e'], seq!['s', 'y', 'e'])),
        ('ジ', 'ェ') => Some(by_system(system, seq!['j', 'e'], seq!['z', 'y', 'e'])),
        ('チ', 'ェ') => Some(by_system(system, seq!['c', 'h', 'e'], seq!['t', 'y', 'e'])),
        _ => None,
    }
}

/// Whether `c` is an ASCII letter, of either case.
pub open spec fn ascii_letter(c: char) -> bool {
    ('a' <= c && c <= 'z') || ('A' <= c && c <= 'Z')
}

/// Whether `c` is one of the five vowels of romaji.
pub open spec fn vowel(c: char) -> bool {
    c == 'a' || c == 'i' || c == 'u' || c == 'e' || c == 'o'
}

/// Whether `c` is a letter that a small tsu may double: an ASCII letter
/// other than the five vowels.
pub open spec fn consonant(c: char) -> bool {
    ascii_letter(c) && !vowel(c)
}

/// The mora at the front of `s`: its spelling and the number of kana it
/// takes up. A digraph takes two; anything else takes one.
pub open spec fn next_mora(s: Seq<char>, system: System) -> (Seq<char>, nat) {
    if s.len() == 0 {
        (Seq::empty(), 0)
    } else if s.len() >= 2 && combo_romaji(s[0], s[1], system) is Some {
        (combo_romaji(s[0], s[1], system).unwrap(), 2)
    } else {
        (single_romaji(s[0], system), 1)
    }
}

/// What a small tsu writes in front of a mora spelled `next`: the first
/// letter of `next` if that is a consonant, except that Hepburn writes `t`
/// in front of `ch`.
pub open spec fn geminate(next: Seq<char>, system: System) -> Seq<char> {
    if next.len() == 0 {
        Seq::empty()
    } else if system == System::Hepburn && next.len() >= 2 && next[0] == 'c' && next[1] == 'h' {
        seq!['t']
    } else if consonant(next[0]) {
        seq![next[0]]
    } else {
        Seq::empty()
    }
}

/// One step of the encoder at the front of a non-empty `s`: what is
/// written, and how many kana are consumed.
pub open spec fn encode_step(s: Seq<char>, system: System) -> (Seq<char>, nat) {
    if s.len() >= 2 && combo_romaji(s[0], s[1], system) is Some {
        (combo_romaji(s[0], s[1], system).unwrap(), 2)
    } else if s[0] == SMALL_TSU && s.len() >= 2 {
        (geminate(next_mora(s.skip(1), system).0, system), 1)
    } else {
        (single_romaji(s[0], system), 1)
    }
}

/// The romaji of a kana sequence: the steps' outputs, one after another.
pub open spec fn encode(s: Seq<char>, system: System) -> Seq<char>
    decreases s.len(),
{
    if s.len() == 0 {
        Seq::empty()
    } else {
        let (written, consumed) = encode_step(s, system);
        written + encode(s.skip(consumed as int), system)
    }
}

/// Whether `c` may occur in romaji: a lowercase ASCII letter or the
/// long-vowel mark.
pub open spec fn is_romaji_char(c: char) -> bool {
    ('a' <= c && c <= 'z') || c == '-'
}

/// Whether every character of `s` may occur in romaji.
pub open spec fn is_romaji(s: Seq<char>) -> bool {
    forall|i: int| 0 <= i < s.len() ==> is_romaji_char(#[trigger] s[i])
}

/// Katakana to romaji in the Hepburn system.
pub fn kana_to_romaji_hepburn(input: &str) -> (result: String)
    ensures
        result@ == encode(input@, System::Hepburn),
        is_romaji(result@),
        result@.len() <= 3 * input@.len(),
        input@.len() == 0 ==> result@.len() == 0,
{
    convert_kana_to_romaji(input, System::Hepburn)
}

/// Katakana to romaji in the Kunrei system.
pub fn kana_to_romaji_kunrei(input: &str) -> (result: String)
    ensures
        result@ == encode(input@, System::Kunrei),
        is_romaji(result@),
        result@.len() <= 3 * input@.len(),
        input@.len() == 0 ==> result@.len() == 0,
{
    convert_kana_to_romaji(input, System::Kunrei)
}

/// Encodes `input` under `system`.
pub fn convert_kana_to_romaji(input: &str, system: System) -> (result: String)
    ensures
        result@ == encode(input@, system),
        is_romaji(result@),
        result@.len() <= 3 * input@.len(),
        input@.len() == 0 ==> result@.len() == 0,
{
    let chars = to_chars(input);
    let mut result = String::new();
    let mut i: usize = 0;
    proof {
        assert(chars@.skip(0) =~= chars@);
    }
    while i < chars.len()
        invariant
            i <= chars.len(),
            chars@ == input@,
            result@ + encode(chars@.skip(i as int), system) == encode(chars@, system),
        decreases chars.len() - i,
    {
        proof {
            lemma_encode_advance(chars@, i as int, result@, system);
            lemma_spelling_of_kana(SMALL_TSU, system);
        }
        // A pair that forms a digraph is taken whole.
        if i + 1 < chars.len() {
            if let Some(romaji) = get_combo_romaji(chars[i], chars[i + 1], system) {
                result.append(romaji);
                i += 2;
                continue;
            }
        }
        // A small tsu looks ahead to the mora it doubles.
        if chars[i] == SMALL_TSU {
            if i + 1 < chars.len() {
                let (next_romaji, _) = resolve_next_romaji(
                    slice_subrange(chars.as_slice(), i + 1, chars.len()),
                    system,
                );
                let mut letters = next_romaji.as_str().chars();
                if let Some(first_char) = letters.next() {
                    let second_char = letters.next();
                    if system == System::Hepburn && first_char == 'c' && second_char == Some('h') {
                        result.push('t');
                    } else if is_consonant(first_char) {
                        result.push(first_char);
                    }
                    i += 1;
                    continue;
                }
            }
        }
        // Anything else is spelled by itself: a character that is no kana,
        // and a small tsu with nothing to double, with nothing.
        let romaji = get_single_romaji(chars[i], system);
        result.append(romaji);
        i += 1;
    }
    proof {
        lemma_encode_is_romaji(input@, system);
        lemma_encode_len(input@, system);
    }
    result
}

/// The encoder's progress: once `before` has been written for the first
/// `i` kana of `s`, the step at `i` extends it to what is written for the
/// kana up to where that step ends.
proof fn lemma_encode_advance(s: Seq<char>, i: int, before: Seq<char>, system: System)
    requires
        0 <= i < s.len(),
        before + encode(s.skip(i), system) == encode(s, system),
    ensures
        ({
            let (written, consumed) = encode_step(s.skip(i), system);
            &&& 1 <= consumed
            &&& i + consumed <= s.len()
            &&& (before + written) + encode(s.skip(i + consumed), system) == encode(s, system)
        }),
{
    let rest = s.skip(i);
    let (written, consumed) = encode_step(rest, system);
    assert(rest.skip(consumed as int) =~= s.skip(i + consumed));
}

/// Spells the mora at the front of `chars`.
pub fn resolve_next_romaji(chars: &[char], system: System) -> (next: (String, usize))
    ensures
        next.0@ == next_mora(chars@, system).0,
        next.1 == next_mora(chars@, system).1,
{
    if chars.len() == 0 {
        return (String::new(), 0);
    }
    if chars.len() >= 2 {
        if let Some(romaji) = get_combo_romaji(chars[0], chars[1], system) {
            return (romaji.to_string(), 2);
        }
    }
    (get_single_romaji(chars[0], system).to_string(), 1)
}

/// Whether `c` is a consonant letter.
pub fn is_consonant(c: char) -> (b: bool)
    ensures
        b == consonant(c),
{
    match c {
        'a' | 'i' | 'u' | 'e' | 'o' => false,
        _ => (c >= 'a' && c <= 'z') || (c >= 'A' && c <= 'Z'),
    }
}

/// Looks up the spelling of one kana.
pub fn get_single_romaji(c: char, system: System) -> (romaji: &'static str)
    ensures
        romaji@ == single_romaji(c, system),
{
    proof {
        reveal(single_romaji);
        reveal_strlit("");
        reveal_strlit("-");
        reveal_strlit("a");
        reveal_strlit("ba");
        reveal_strlit("be");
        reveal_strlit("bi");
        reveal_strlit("bo");
        reveal_strlit("bu");
        reveal_strlit("chi");
        reveal_strlit("da");
        reveal_strlit("de");
        reveal_strlit("do");
        reveal_strlit("e");
        reveal_strlit("fu");
        reveal_strlit("ga");
        reveal_strlit("ge");
        reveal_strlit("gi");
        reveal_strlit("go");
        reveal_strlit("gu");
        reveal_strlit("ha");
        reveal_strlit("he");
        reveal_strlit("hi");
        reveal_strlit("ho");
        reveal_strlit("hu");
        reveal_strlit("i");
        reveal_strlit("ji");
        reveal_strlit("ka");
        reveal_strlit("ke");
        reveal_strlit("ki");
        reveal_strlit("ko");
        reveal_strlit("ku");
        reveal_strlit("ma");
        reveal_strlit("me");
        reveal_strlit("mi");
        reveal_strlit("mo");
        reveal_strlit("mu");
        reveal_strlit("n");
        reveal_strlit("na");
        reveal_strlit("ne");
        reveal_strlit("ni");
        reveal_strlit("no");
        reveal_strlit("nu");
        reveal_strlit("o");
        reveal_strlit("pa");
        reveal_strlit("pe");
        reveal_strlit("pi");
        reveal_strlit("po");
        reveal_strlit("pu");
        reveal_strlit("ra");
        reveal_strlit("re");
        reveal_strlit("ri");
        reveal_strlit("ro");
        reveal_strlit("ru");
        reveal_strlit("sa");
        reveal_strlit("se");
        reveal_strlit("shi");
        reveal_strlit("si");
        reveal_strlit("so");
        reveal_strlit("su");
        reveal_strlit("ta");
        reveal_strlit("te");
        reveal_strlit("ti");
        reveal_strlit("to");
        reveal_strlit("tsu");
        reveal_strlit("tu");
        reveal_strlit("u");
        reveal_strlit("wa");
        reveal_strlit("wo");
        reveal_strlit("ya");
        reveal_strlit("yo");
        reveal_strlit("yu");
        reveal_strlit("za");
        reveal_strlit("ze");
        reveal_strlit("zi");
        reveal_strlit("zo");
        reveal_strlit("zu");
    }
    match system {
        System::Hepburn => match c {
            'ア' => "a",
            'イ' => "i",
            'ウ' => "u",
            'エ' => "e",
            'オ' => "o",
            'カ' => "ka",
            'キ' => "ki",
            'ク' => "ku",
            'ケ' => "ke",
            'コ' => "ko",
            'サ' => "sa",
            'シ' => "shi",
            'ス' => "su",
            'セ' => "se",
            'ソ' => "so",
            'タ' => "ta",
            'チ' => "chi",
            'ツ' => "tsu",
            'テ' => "te",
            'ト' => "to",
            'ナ' => "na",
            'ニ' => "ni",
            'ヌ' => "nu",
            'ネ' => "ne",
            'ノ' => "no",
            'ハ' => "ha",
            'ヒ' => "hi",
            'フ' => "fu",
            'ヘ' => "he",
            'ホ' => "ho",
            'マ' => "ma",
            'ミ' => "mi",
            'ム' => "mu",
            'メ' => "me",
            'モ' => "mo",
            'ヤ' => "ya",
            'ユ' => "yu",
            'ヨ' => "yo",
            'ラ' => "ra",
            'リ' => "ri",
            'ル' => "ru",
            'レ' => "re",
            'ロ' => "ro",
            'ワ' => "wa",
            'ヲ' => "wo",
            'ン' => "n",
            'ガ' => "ga",
            'ギ' => "gi",
            'グ' => "gu",
            'ゲ' => "ge",
            'ゴ' => "go",
            'ザ' => "za",
            'ジ' => "ji",
            'ズ' => "zu",
            'ゼ' => "ze",
            'ゾ' => "zo",
            'ダ' => "da",
            'ヂ' => "ji",
            'ヅ' => "zu",
            'デ' => "de",
            'ド' => "do",
            'バ' => "ba",
            'ビ' => "bi",
            'ブ' => "bu",
            'ベ' => "be",
            'ボ' => "bo",
            'パ' => "pa",
            'ピ' => "pi",
            'プ' => "pu",
            'ペ' => "pe",
            'ポ' => "po",
            'ァ' => "a",
            'ィ' => "i",
            'ゥ' => "u",
            'ェ' => "e",
            'ォ' => "o",
            'ャ' => "ya",
            'ュ' => "yu",
            'ョ' => "yo",
            'ヮ' => "wa",
            'ー' => "-",
            _ => "",
        },
        System::Kunrei => match c {
            'ア' => "a",
            'イ' => "i",
            'ウ' => "u",
            'エ' => "e",
            'オ' => "o",
            'カ' => "ka",
            'キ' => "ki",
            'ク' => "ku",
            'ケ' => "ke",
            'コ' => "ko",
            'サ' => "sa",
            'シ' => "si",
            'ス' => "su",
            'セ' => "se",
            'ソ' => "so",
            'タ' => "ta",
            'チ' => "ti",
            'ツ' => "tu",
            'テ' => "te",
            'ト' => "to",
            'ナ' => "na",
            'ニ' => "ni",
            'ヌ' => "nu",
            'ネ' => "ne",
            'ノ' => "no",
            'ハ' => "ha",
            'ヒ' => "hi",
            'フ' => "hu",
            'ヘ' => "he",
            'ホ' => "ho",
            'マ' => "ma",
            'ミ' => "mi",
            'ム' => "mu",
            'メ' => "me",
            'モ' => "mo",
            'ヤ' => "ya",
            'ユ' => "yu",
            'ヨ' => "yo",
            'ラ' => "ra",
            'リ' => "ri",
            'ル' => "ru",
            'レ' => "re",
            'ロ' => "ro",
            'ワ' => "wa",
            'ヲ' => "wo",
            'ン' => "n",
            'ガ' => "ga",
            'ギ' => "gi",
            'グ' => "gu",
            'ゲ' => "ge",
            'ゴ' => "go",
            'ザ' => "za",
            'ジ' => "zi",
            'ズ' => "zu",
            'ゼ' => "ze",
            'ゾ' => "zo",
            'ダ' => "da",
            'ヂ' => "zi",
            'ヅ' => "zu",
            'デ' => "de",
            'ド' => "do",
            'バ' => "ba",
            'ビ' => "bi",
            'ブ' => "bu",
            'ベ' => "be",
            'ボ' => "bo",
            'パ' => "pa",
            'ピ' => "pi",
            'プ' => "pu",
            'ペ' => "pe",
            'ポ' => "po",
            'ァ' => "a",
            'ィ' => "i",
            'ゥ' => "u",
            'ェ' => "e",
            'ォ' => "o",
            'ャ' => "ya",
            'ュ' => "yu",
            'ョ' => "yo",
            'ヮ' => "wa",
            'ー' => "-",
            _ => "",
        },
    }
}

/// Looks up the spelling of a digraph.
pub fn get_combo_romaji(c1: char, c2: char, system: System) -> (romaji: Option<&'static str>)
    ensures
        match romaji {
            Some(r) => combo_romaji(c1, c2, system) == Some(r@),
            None => combo_romaji(c1, c2, system) is None,
        },
{
    proof {
        reveal(combo_romaji);
        reveal_strlit("bya");
        reveal_strlit("byo");
        reveal_strlit("byu");
        reveal_strlit("cha");
        reveal_strlit("che");
        reveal_strlit("cho");
        reveal_strlit("chu");
        reveal_strlit("di");
        reveal_strlit("du");
        reveal_strlit("fa");
        reveal_strlit("fe");
        reveal_strlit("fi");
        reveal_strlit("fo");
        reveal_strlit("gya");
        reveal_strlit("gyo");
        reveal_strlit("gyu");
        reveal_strlit("hya");
        reveal_strlit("hyo");
        reveal_strlit("hyu");
        reveal_strlit("ja");
        reveal_strlit("je");
        reveal_strlit("jo");
        reveal_strlit("ju");
        reveal_strlit("kya");
        reveal_strlit("kyo");
        reveal_strlit("kyu");
        reveal_strlit("mya");
        reveal_strlit("myo");
        reveal_strlit("myu");
        reveal_strlit("nya");
        reveal_strlit("nyo");
        reveal_strlit("nyu");
        reveal_strlit("pya");
        reveal_strlit("pyo");
        reveal_strlit("pyu");
        reveal_strlit("rya");
        reveal_strlit("ryo");
        reveal_strlit("ryu");
        reveal_strlit("sha");
        reveal_strlit("she");
        reveal_strlit("sho");
        reveal_strlit("shu");
        reveal_strlit("sya");
        reveal_strlit("sye");
        reveal_strlit("syo");
        reveal_strlit("syu");
        reveal_strlit("ti");
        reveal_strlit("tu");
        reveal_strlit("tya");
        reveal_strlit("tye");
        reveal_strlit("tyo");
        reveal_strlit("tyu");
        reveal_strlit("we");
        reveal_strlit("wi");
        reveal_strlit("wo");
        reveal_strlit("zya");
        reveal_strlit("zye");
        reveal_strlit("zyo");
        reveal_strlit("zyu");
    }
    match system {
        System::Hepburn => match (c1, c2) {
            ('キ', 'ャ') => Some("kya"),
            ('キ', 'ュ') => Some("kyu"),
            ('キ', 'ョ') => Some("kyo"),
            ('シ', 'ャ') => Some("sha"),
            ('シ', 'ュ') => Some("shu"),
            ('シ', 'ョ') => Some("sho"),
            ('チ', 'ャ') => Some("cha"),
            ('チ', 'ュ') => Some("chu"),
            ('チ', 'ョ') => Some("cho"),
            ('ニ', 'ャ') => Some("nya"),
            ('ニ', 'ュ') => Some("nyu"),
            ('ニ', 'ョ') => Some("nyo"),
            ('ヒ', 'ャ') => Some("hya"),
            ('ヒ', 'ュ') => Some("hyu"),
            ('ヒ', 'ョ') => Some("hyo"),
            ('ミ', 'ャ') => Some("mya"),
            ('ミ', 'ュ') => Some("myu"),
            ('ミ', 'ョ') => Some("myo"),
            ('リ', 'ャ') => Some("rya"),
            ('リ', 'ュ') => Some("ryu"),
            ('リ', 'ョ') => Some("ryo"),
            ('ギ', 'ャ') => Some("gya"),
            ('ギ', 'ュ') => Some("gyu"),
            ('ギ', 'ョ') => Some("gyo"),
            ('ジ', 'ャ') => Some("ja"),
            ('ジ', 'ュ') => Some("ju"),
            ('ジ', 'ョ') => Some("jo"),
            ('ビ', 'ャ') => Some("bya"),
            ('ビ', 'ュ') => Some("byu"),
            ('ビ', 'ョ') => Some("byo"),
            ('ピ', 'ャ') => Some("pya"),
            ('ピ', 'ュ') => Some("pyu"),
            ('ピ', 'ョ') => Some("pyo"),
            ('ヂ', 'ャ') => Some("ja"),
            ('ヂ', 'ュ') => Some("ju"),
            ('ヂ', 'ョ') => Some("jo"),
            ('テ', 'ィ') => Some("ti"),
            ('デ', 'ィ') => Some("di"),
            ('ト', 'ゥ') => Some("tu"),
            ('ド', 'ゥ') => Some("du"),
            ('フ', 'ァ') => Some("fa"),
            ('フ', 'ィ') => Some("fi"),
            ('フ', 'ェ') => Some("fe"),
            ('フ', 'ォ') => Some("fo"),
            ('ウ', 'ィ') => Some("wi"),
            ('ウ', 'ェ') => Some("we"),
            ('ウ', 'ォ') => Some("wo"),
            ('シ', 'ェ') => Some("she"),
            ('ジ', 'ェ') => Some("je"),
            ('チ', 'ェ') => Some("che"),
            _ => None,
        },
        System::Kunrei => match (c1, c2) {
            ('キ', 'ャ') => Some("kya"),
            ('キ', 'ュ') => Some("kyu"),
            ('キ', 'ョ') => Some("kyo"),
            ('シ', 'ャ') => Some("sya"),
            ('シ', 'ュ') => Some("syu"),
            ('シ', 'ョ') => Some("syo"),
            ('チ', 'ャ') => Some("tya"),
            ('チ', 'ュ') => Some("tyu"),
            ('チ', 'ョ') => Some("tyo"),
            ('ニ', 'ャ') => Some("nya"),
            ('ニ', 'ュ') => Some("nyu"),
            ('ニ', 'ョ') => Some("nyo"),
            ('ヒ', 'ャ') => Some("hya"),
            ('ヒ', 'ュ') => Some("hyu"),
            ('ヒ', 'ョ') => Some("hyo"),
            ('ミ', 'ャ') => Some("mya"),
            ('ミ', 'ュ') => Some("myu"),
            ('ミ', 'ョ') => Some("myo"),
            ('リ', 'ャ') => Some("rya"),
            ('リ', 'ュ') => Some("ryu"),
            ('リ', 'ョ') => Some("ryo"),
            ('ギ', 'ャ') => Some("gya"),
            ('ギ', 'ュ') => Some("gyu"),
            ('ギ', 'ョ') => Some("gyo"),
            ('ジ', 'ャ') => Some("zya"),
            ('ジ', 'ュ') => Some("zyu"),
            ('ジ', 'ョ') => Some("zyo"),
            ('ビ', 'ャ') => Some("bya"),
            ('ビ', 'ュ') => Some("byu"),
            ('ビ', 'ョ') => Some("byo"),
            ('ピ', 'ャ') => Some("pya"),
            ('ピ', 'ュ') => Some("pyu"),
            ('ピ', 'ョ') => Some("pyo"),
            ('ヂ', 'ャ') => Some("zya"),
            ('ヂ', 'ュ') => Some("zyu"),
            ('ヂ', 'ョ') => Some("zyo"),
            ('テ', 'ィ') => Some("ti"),
            ('デ', 'ィ') => Some("di"),
            ('ト', 'ゥ') => Some("tu"),
            ('ド', 'ゥ') => Some("du"),
            ('フ', 'ァ') => Some("fa"),
            ('フ', 'ィ') => Some("fi"),
            ('フ', 'ェ') => Some("fe"),
            ('フ', 'ォ') => Some("fo"),
            ('ウ', 'ィ') => Some("wi"),
            ('ウ', 'ェ') => Some("we"),
            ('ウ', 'ォ') => Some("wo"),
            ('シ', 'ェ') => Some("sye"),
            ('ジ', 'ェ') => Some("zye"),
            ('チ', 'ェ') => Some("tye"),
            _ => None,
        },
    }
}

} // verus!
