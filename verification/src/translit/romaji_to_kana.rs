//! Romaji to hiragana.
//!
//! The decoder reads its input left to right. Where a literal of the table
//! begins at the cursor, its kana is written and the literal is skipped; the
//! table is searched in order, so an earlier literal wins over a later one.
//! Where none does, a doubled consonant writes a small tsu, and any other
//! character is copied as it is.

use crate::text::{starts_with, to_chars};
use crate::translit::kana_to_romaji::{ascii_letter, vowel};
use crate::translit::laws::{
    lemma_decode_len, lemma_decode_writes_kana_or_copies, lemma_first_match_is_longest,
};
use vstd::prelude::*;
use vstd::slice::slice_subrange;

verus! {

/// The number of literals in the table.
pub const MAPPING_COUNT: usize = 106;

/// The table: each romaji literal with the kana it stands for, in the order
/// in which the decoder tries them.
#[verifier::opaque]
pub open spec fn mapping(k: usize) -> (Seq<char>, Seq<char>) {
    match k {
        0 => (seq!['k', 'y', 'a'], seq!['き', 'ゃ']),
        1 => (seq!['k', 'y', 'u'], seq!['き', 'ゅ']),
        2 => (seq!['k', 'y', 'o'], seq!['き', 'ょ']),
        3 => (seq!['s', 'h', 'a'], seq!['し', 'ゃ']),
        4 => (seq!['s', 'h', 'u'], seq!['し', 'ゅ']),
        5 => (seq!['s', 'h', 'o'], seq!['し', 'ょ']),
        6 => (seq!['c', 'h', 'a'], seq!['ち', 'ゃ']),
        7 => (seq!['c', 'h', 'u'], seq!['ち', 'ゅ']),
        8 => (seq!['c', 'h', 'o'], seq!['ち', 'ょ']),
        9 => (seq!['n', 'y', 'a'], seq!['に', 'ゃ']),
        10 => (seq!['n', 'y', 'u'], seq!['に', 'ゅ']),
        11 => (seq!['n', 'y', 'o'], seq!['に', 'ょ']),
        12 => (seq!['h', 'y', 'a'], seq!['ひ', 'ゃ']),
        13 => (seq!['h', 'y', 'u'], seq!['ひ', 'ゅ']),
        14 => (seq!['h', 'y', 'o'], seq!['ひ', 'ょ']),
        15 => (seq!['m', 'y', 'a'], seq!['み', 'ゃ']),
        16 => (seq!['m', 'y', 'u'], seq!['み', 'ゅ']),
        17 => (seq!['m', 'y', 'o'], seq!['み', 'ょ']),
        18 => (seq!['r', 'y', 'a'], seq!['り', 'ゃ']),
        19 => (seq!['r', 'y', 'u'], seq!['り', 'ゅ']),
        20 => (seq!['r', 'y', 'o'], seq!['り', 'ょ']),
        21 => (seq!['g', 'y', 'a'], seq!['ぎ', 'ゃ']),
        22 => (seq!['g', 'y', 'u'], seq!['ぎ', 'ゅ']),
        23 => (seq!['g', 'y', 'o'], seq!['ぎ', 'ょ']),
        24 => (seq!['j', 'a'], seq!['じ', 'ゃ']),
        25 => (seq!['j', 'u'], seq!['じ', 'ゅ']),
        26 => (seq!['j', 'o'], seq!['じ', 'ょ']),
        27 => (seq!['b', 'y', 'a'], seq!['び', 'ゃ']),
        28 => (seq!['b', 'y', 'u'], seq!['び', 'ゅ']),
        29 => (seq!['b', 'y', 'o'], seq!['び', 'ょ']),
        30 => (seq!['p', 'y', 'a'], seq!['ぴ', 'ゃ']),
        31 => (seq!['p', 'y', 'u'], seq!['ぴ', 'ゅ']),
        32 => (seq!['p', 'y', 'o'], seq!['ぴ', 'ょ']),
        33 => (seq!['s', 'h', 'i'], seq!['し']),
        34 => (seq!['c', 'h', 'i'], seq!['ち']),
        35 => (seq!['t', 's', 'u'], seq!['つ']),
        36 => (seq!['k', 'a'], seq!['か']),
        37 => (seq!['k', 'i'], seq!['き']),
        38 => (seq!['k', 'u'], seq!['く']),
        39 => (seq!['k', 'e'], seq!['け']),
        40 => (seq!['k', 'o'], seq!['こ']),
        41 => (seq!['s', 'a'], seq!['さ']),
        42 => (seq!['s', 'u'], seq!['す']),
        43 => (seq!['s', 'e'], seq!['せ']),
        44 => (seq!['s', 'o'], seq!['そ']),
        45 => (seq!['t', 'a'], seq!['た']),
        46 => (seq!['t', 'e'], seq!['て']),
        47 => (seq!['t', 'o'], seq!['と']),
        48 => (seq!['n', 'a'], seq!['な']),
        49 => (seq!['n', 'i'], seq!['に']),
        50 => (seq!['n', 'u'], seq!['ぬ']),
        51 => (seq!['n', 'e'], seq!['ね']),
        52 => (seq!['n', 'o'], seq!['の']),
        53 => (seq!['h', 'a'], seq!['は']),
        54 => (seq!['h', 'i'], seq!['ひ']),
        55 => (seq!['h', 'u'], seq!['ふ']),
        56 => (seq!['f', 'u'], seq!['ふ']),
        57 => (seq!['h', 'e'], seq!['へ']),
        58 => (seq!['h', 'o'], seq!['ほ']),
        59 => (seq!['m', 'a'], seq!['ま']),
        60 => (seq!['m', 'i'], seq!['み']),
        61 => (seq!['m', 'u'], seq!['む']),
        62 => (seq!['m', 'e'], seq!['め']),
        63 => (seq!['m', 'o'], seq!['も']),
        64 => (seq!['y', 'a'], seq!['や']),
        65 => (seq!['y', 'u'], seq!['ゆ']),
        66 => (seq!['y', 'o'], seq!['よ']),
        67 => (seq!['r', 'a'], seq!['ら']),
        68 => (seq!['r', 'i'], seq!['り']),
        69 => (seq!['r', 'u'], seq!['る']),
        70 => (seq!['r', 'e'], seq!['れ']),
        71 => (seq!['r', 'o'], seq!['ろ']),
        72 => (seq!['w', 'a'], seq!['わ']),
        73 => (seq!['w', 'o'], seq!['を']),
        74 => (seq!['g', 'a'], seq!['が']),
        75 => (seq!['g', 'i'], seq!['ぎ']),
        76 => (seq!['g', 'u'], seq!['ぐ']),
        77 => (seq!['g', 'e'], seq!['げ']),
        78 => (seq!['g', 'o'], seq!['ご']),
        79 => (seq!['z', 'a'], seq!['ざ']),
        80 => (seq!['j', 'i'], seq!['じ']),
        81 => (seq!['z', 'u'], seq!['ず']),
        82 => (seq!['z', 'e'], seq!['ぜ']),
        83 => (seq!['z', 'o'], seq!['ぞ']),
        84 => (seq!['d', 'a'], seq!['だ']),
        85 => (seq!['j', 'i'], seq!['ぢ']),
        86 => (seq!['z', 'u'], seq!['づ']),
        87 => (seq!['d', 'e'], seq!['で']),
        88 => (seq!['d', 'o'], seq!['ど']),
        89 => (seq!['b', 'a'], seq!['ば']),
        90 => (seq!['b', 'i'], seq!['び']),
        91 => (seq!['b', 'u'], seq!['ぶ']),
        92 => (seq!['b', 'e'], seq!['べ']),
        93 => (seq!['b', 'o'], seq!['ぼ']),
        94 => (seq!['p', 'a'], seq!['ぱ']),
        95 => (seq!['p', 'i'], seq!['ぴ']),
        96 => (seq!['p', 'u'], seq!['ぷ']),
        97 => (seq!['p', 'e'], seq!['ぺ']),
        98 => (seq!['p', 'o'], seq!['ぽ']),
        99 => (seq!['a'], seq!['あ']),
        100 => (seq!['i'], seq!['い']),
        101 => (seq!['u'], seq!['う']),
        102 => (seq!['e'], seq!['え']),
        103 => (seq!['o'], seq!['お']),
        104 => (seq!['n'], seq!['ん']),
        105 => (seq!['-'], seq!['ー']),
        _ => (Seq::empty(), Seq::empty()),
    }
}

/// Whether the `k`-th literal begins `s`.
pub open spec fn matches_at(s: Seq<char>, k: usize) -> bool {
    k < MAPPING_COUNT && mapping(k).0.is_prefix_of(s)
}

/// Whether the `k`-th literal begins `s` and no literal before it does.
pub open spec fn is_first_match(s: Seq<char>, k: usize) -> bool {
    matches_at(s, k) && forall|j: usize| j < k ==> !matches_at(s, j)
}

/// What the table finds at the front of `s`: the length of the first
/// literal that begins `s`, and its kana.
pub open spec fn literal_match(s: Seq<char>) -> Option<(nat, Seq<char>)> {
    if exists|k: usize| is_first_match(s, k) {
        let k = choose|k: usize| is_first_match(s, k);
        Some((mapping(k).0.len(), mapping(k).1))
    } else {
        None
    }
}

/// Whether a doubled `c` stands for a small tsu: a consonant letter other
/// than `n`, whose doubling is two literals.
pub open spec fn consonant(c: char) -> bool {
    ascii_letter(c) && !vowel(c) && c != 'n'
}

/// The small tsu of hiragana.
pub const SMALL_TSU: char = 'っ';

/// Whether `c` is a hiragana or the long-vowel mark.
pub open spec fn is_hiragana(c: char) -> bool {
    ('ぁ' <= c && c <= 'ん') || c == 'ー'
}

/// Whether every character of `written` is hiragana, the long-vowel mark
/// or a character of `s`.
pub open spec fn writes_kana_or_copies(s: Seq<char>, written: Seq<char>) -> bool {
    forall|p: int| 0 <= p < written.len() ==> is_hiragana(#[trigger] written[p]) || s.contains(written[p])
}

/// One step of the decoder at the front of a non-empty `s`: what is
/// written, and how many characters are consumed.
pub open spec fn decode_step(s: Seq<char>) -> (Seq<char>, nat) {
    match literal_match(s) {
        Some((len, kana)) => (kana, len),
        None => if s.len() >= 2 && s[0] == s[1] && consonant(s[0]) {
            (seq![SMALL_TSU], 1)
        } else {
            (seq![s[0]], 1)
        },
    }
}

/// The kana of a romaji sequence: the steps' outputs, one after another.
pub open spec fn decode(s: Seq<char>) -> Seq<char>
    decreases s.len(),
    via decode_decreases
{
    if s.len() == 0 {
        Seq::empty()
    } else {
        let (written, consumed) = decode_step(s);
        written + decode(s.skip(consumed as int))
    }
}

#[via_fn]
proof fn decode_decreases(s: Seq<char>) {
    if s.len() != 0 {
        lemma_decode_step_advances(s);
    }
}

/// Decodes `input` into hiragana.
pub fn romaji_to_kana(input: &str) -> (result: String)
    ensures
        result@ == decode(input@),
        writes_kana_or_copies(input@, result@),
        result@.len() <= 2 * input@.len(),
        input@.len() == 0 ==> result@.len() == 0,
{
    let chars = to_chars(input);
    let mut result = String::new();
    let mut current_idx: usize = 0;
    proof {
        assert(chars@.skip(0) =~= chars@);
    }
    while current_idx < chars.len()
        invariant
            current_idx <= chars.len(),
            chars@ == input@,
            result@ + decode(chars@.skip(current_idx as int)) == decode(chars@),
        decreases chars.len() - current_idx,
    {
        proof {
            lemma_decode_advance(chars@, current_idx as int, result@);
        }
        let remaining = slice_subrange(chars.as_slice(), current_idx, chars.len());
        // A literal of the table is read as its kana.
        if let Some((len, kana)) = find_match(remaining) {
            result.append(kana);
            current_idx += len;
            continue;
        }
        // A doubled consonant: the first of the pair becomes a small tsu,
        // and the second begins the next step.
        let first_char = remaining[0];
        if remaining.len() > 1 {
            let next_char = remaining[1];
            if first_char == next_char && is_consonant(first_char) {
                result.push(SMALL_TSU);
                current_idx += 1;
                continue;
            }
        }
        // Anything else is copied.
        result.push(first_char);
        current_idx += 1;
    }
    proof {
        lemma_decode_writes_kana_or_copies(input@);
        lemma_decode_len(input@);
    }
    result
}

/// The decoder's progress: once `before` has been written for the first
/// `i` characters of `s`, the step at `i` extends it to what is written for
/// the characters up to where that step ends.
proof fn lemma_decode_advance(s: Seq<char>, i: int, before: Seq<char>)
    requires
        0 <= i < s.len(),
        before + decode(s.skip(i)) == decode(s),
    ensures
        ({
            let (written, consumed) = decode_step(s.skip(i));
            &&& 1 <= consumed
            &&& i + consumed <= s.len()
            &&& (before + written) + decode(s.skip(i + consumed)) == decode(s)
        }),
{
    let rest = s.skip(i);
    let (written, consumed) = decode_step(rest);
    lemma_decode_step_advances(rest);
    assert(rest.skip(consumed as int) =~= s.skip(i + consumed));
}

/// Finds the first literal of the table that begins `s`, which is also the
/// longest that does.
pub fn find_match(s: &[char]) -> (found: Option<(usize, &'static str)>)
    ensures
        match found {
            Some((len, kana)) => literal_match(s@) == Some((len as nat, kana@)),
            None => literal_match(s@) is None,
        },
        found matches Some((len, _)) ==> forall|j: usize|
            matches_at(s@, j) ==> mapping(j).0.len() <= len,
{
    let mut k: usize = 0;
    while k < MAPPING_COUNT
        invariant
            k <= MAPPING_COUNT,
            forall|j: usize| j < k ==> !matches_at(s@, j),
        decreases MAPPING_COUNT - k,
    {
        let (romaji, kana) = mapping_at(k);
        if starts_with(s, romaji) {
            proof {
                lemma_first_match_unique(s@, k);
                assert forall|j: usize| matches_at(s@, j) implies mapping(j).0.len() <= mapping(
                    k,
                ).0.len() by {
                    lemma_first_match_is_longest(s@, k, j);
                }
            }
            return Some((romaji.unicode_len(), kana));
        }
        k += 1;
    }
    proof {
        assert forall|j: usize| !is_first_match(s@, j) by {
            assert(!matches_at(s@, j));
        }
    }
    None
}

/// Whether a doubled `c` stands for a small tsu.
pub fn is_consonant(c: char) -> (b: bool)
    ensures
        b == consonant(c),
{
    match c {
        'a' | 'i' | 'u' | 'e' | 'o' => false,
        'n' => false,
        _ => (c >= 'a' && c <= 'z') || (c >= 'A' && c <= 'Z'),
    }
}

/// Every literal of the table has between one and three characters.
pub proof fn lemma_literal_len(k: usize)
    requires
        k < MAPPING_COUNT,
    ensures
        1 <= mapping(k).0.len() <= 3,
{
    reveal(mapping);
}

/// The first literal that begins `s`, if any, is the only one that
/// `literal_match` can speak of.
pub proof fn lemma_first_match_unique(s: Seq<char>, k: usize)
    requires
        is_first_match(s, k),
    ensures
        literal_match(s) == Some((mapping(k).0.len(), mapping(k).1)),
{
    // Of two first matches, neither can come before the other.
    let other = choose|other: usize| is_first_match(s, other);
    assert(other == k) by {
        if other < k {
            assert(!matches_at(s, other));
        }
        if k < other {
            assert(!matches_at(s, k));
        }
    }
}

/// Each step consumes at least one character and no more than there are.
pub proof fn lemma_decode_step_advances(s: Seq<char>)
    requires
        s.len() > 0,
    ensures
        1 <= decode_step(s).1 <= s.len(),
{
    if exists|k: usize| is_first_match(s, k) {
        let k = choose|k: usize| is_first_match(s, k);
        lemma_literal_len(k);
    }
}

/// The `k`-th entry of the table.
pub fn mapping_at(k: usize) -> (entry: (&'static str, &'static str))
    ensures
        entry.0@ == mapping(k).0,
        entry.1@ == mapping(k).1,
{
    proof {
        reveal(mapping);
        reveal_strlit("");
        reveal_strlit("-");
        reveal_strlit("a");
        reveal_strlit("ba");
        reveal_strlit("be");
        reveal_strlit("bi");
        reveal_strlit("bo");
        reveal_strlit("bu");
        reveal_strlit("bya");
        reveal_strlit("byo");
        reveal_strlit("byu");
        reveal_strlit("cha");
        reveal_strlit("chi");
        reveal_strlit("cho");
        reveal_strlit("chu");
        reveal_strlit("da");
        reveal_strlit("de");
        reveal_strlit("do");
        reveal_strlit("e");
        reveal_strlit("fu");
        reveal_strlit("ga");
        reveal_strlit("ge");
        reveal_strlit("gi");
        reveal_strlit("go");
        reveal_strlit("gu");
        reveal_strlit("gya");
        reveal_strlit("gyo");
        reveal_strlit("gyu");
        reveal_strlit("ha");
        reveal_strlit("he");
        reveal_strlit("hi");
        reveal_strlit("ho");
        reveal_strlit("hu");
        reveal_strlit("hya");
        reveal_strlit("hyo");
        reveal_strlit("hyu");
        reveal_strlit("i");
        reveal_strlit("ja");
        reveal_strlit("ji");
        reveal_strlit("jo");
        reveal_strlit("ju");
        reveal_strlit("ka");
        reveal_strlit("ke");
        reveal_strlit("ki");
        reveal_strlit("ko");
        reveal_strlit("ku");
        reveal_strlit("kya");
        reveal_strlit("kyo");
        reveal_strlit("kyu");
        reveal_strlit("ma");
        reveal_strlit("me");
        reveal_strlit("mi");
        reveal_strlit("mo");
        reveal_strlit("mu");
        reveal_strlit("mya");
        reveal_strlit("myo");
        reveal_strlit("myu");
        reveal_strlit("n");
        reveal_strlit("na");
        reveal_strlit("ne");
        reveal_strlit("ni");
        reveal_strlit("no");
        reveal_strlit("nu");
        reveal_strlit("nya");
        reveal_strlit("nyo");
        reveal_strlit("nyu");
        reveal_strlit("o");
        reveal_strlit("pa");
        reveal_strlit("pe");
        reveal_strlit("pi");
        reveal_strlit("po");
        reveal_strlit("pu");
        reveal_strlit("pya");
        reveal_strlit("pyo");
        reveal_strlit("pyu");
        reveal_strlit("ra");
        reveal_strlit("re");
        reveal_strlit("ri");
        reveal_strlit("ro");
        reveal_strlit("ru");
        reveal_strlit("rya");
        reveal_strlit("ryo");
        reveal_strlit("ryu");
        reveal_strlit("sa");
        reveal_strlit("se");
        reveal_strlit("sha");
        reveal_strlit("shi");
        reveal_strlit("sho");
        reveal_strlit("shu");
        reveal_strlit("so");
        reveal_strlit("su");
        reveal_strlit("ta");
        reveal_strlit("te");
        reveal_strlit("to");
        reveal_strlit("tsu");
        reveal_strlit("u");
        reveal_strlit("wa");
        reveal_strlit("wo");
        reveal_strlit("ya");
        reveal_strlit("yo");
        reveal_strlit("yu");
        reveal_strlit("za");
        reveal_strlit("ze");
        reveal_strlit("zo");
        reveal_strlit("zu");
        reveal_strlit("あ");
        reveal_strlit("い");
        reveal_strlit("う");
        reveal_strlit("え");
        reveal_strlit("お");
        reveal_strlit("か");
        reveal_strlit("が");
        reveal_strlit("き");
        reveal_strlit("きゃ");
        reveal_strlit("きゅ");
        reveal_strlit("きょ");
        reveal_strlit("ぎ");
        reveal_strlit("ぎゃ");
        reveal_strlit("ぎゅ");
        reveal_strlit("ぎょ");
        reveal_strlit("く");
        reveal_strlit("ぐ");
        reveal_strlit("け");
        reveal_strlit("げ");
        reveal_strlit("こ");
        reveal_strlit("ご");
        reveal_strlit("さ");
        reveal_strlit("ざ");
        reveal_strlit("し");
        reveal_strlit("しゃ");
        reveal_strlit("しゅ");
        reveal_strlit("しょ");
        reveal_strlit("じ");
        reveal_strlit("じゃ");
        reveal_strlit("じゅ");
        reveal_strlit("じょ");
        reveal_strlit("す");
        reveal_strlit("ず");
        reveal_strlit("せ");
        reveal_strlit("ぜ");
        reveal_strlit("そ");
        reveal_strlit("ぞ");
        reveal_strlit("た");
        reveal_strlit("だ");
        reveal_strlit("ち");
        reveal_strlit("ちゃ");
        reveal_strlit("ちゅ");
        reveal_strlit("ちょ");
        reveal_strlit("ぢ");
        reveal_strlit("つ");
        reveal_strlit("づ");
        reveal_strlit("て");
        reveal_strlit("で");
        reveal_strlit("と");
        reveal_strlit("ど");
        reveal_strlit("な");
        reveal_strlit("に");
        reveal_strlit("にゃ");
        reveal_strlit("にゅ");
        reveal_strlit("にょ");
        reveal_strlit("ぬ");
        reveal_strlit("ね");
        reveal_strlit("の");
        reveal_strlit("は");
        reveal_strlit("ば");
        reveal_strlit("ぱ");
        reveal_strlit("ひ");
        reveal_strlit("ひゃ");
        reveal_strlit("ひゅ");
        reveal_strlit("ひょ");
        reveal_strlit("び");
        reveal_strlit("びゃ");
        reveal_strlit("びゅ");
        reveal_strlit("びょ");
        reveal_strlit("ぴ");
        reveal_strlit("ぴゃ");
        reveal_strlit("ぴゅ");
        reveal_strlit("ぴょ");
        reveal_strlit("ふ");
        reveal_strlit("ぶ");
        reveal_strlit("ぷ");
        reveal_strlit("へ");
        reveal_strlit("べ");
        reveal_strlit("ぺ");
        reveal_strlit("ほ");
        reveal_strlit("ぼ");
        reveal_strlit("ぽ");
        reveal_strlit("ま");
        reveal_strlit("み");
        reveal_strlit("みゃ");
        reveal_strlit("みゅ");
        reveal_strlit("みょ");
        reveal_strlit("む");
        reveal_strlit("め");
        reveal_strlit("も");
        reveal_strlit("や");
        reveal_strlit("ゆ");
        reveal_strlit("よ");
        reveal_strlit("ら");
        reveal_strlit("り");
        reveal_strlit("りゃ");
        reveal_strlit("りゅ");
        reveal_strlit("りょ");
        reveal_strlit("る");
        reveal_strlit("れ");
        reveal_strlit("ろ");
        reveal_strlit("わ");
        reveal_strlit("を");
        reveal_strlit("ん");
        reveal_strlit("ー");
    }
    match k {
        0 => ("kya", "きゃ"),
        1 => ("kyu", "きゅ"),
        2 => ("kyo", "きょ"),
        3 => ("sha", "しゃ"),
        4 => ("shu", "しゅ"),
        5 => ("sho", "しょ"),
        6 => ("cha", "ちゃ"),
        7 => ("chu", "ちゅ"),
        8 => ("cho", "ちょ"),
        9 => ("nya", "にゃ"),
        10 => ("nyu", "にゅ"),
        11 => ("nyo", "にょ"),
        12 => ("hya", "ひゃ"),
        13 => ("hyu", "ひゅ"),
        14 => ("hyo", "ひょ"),
        15 => ("mya", "みゃ"),
        16 => ("myu", "みゅ"),
        17 => ("myo", "みょ"),
        18 => ("rya", "りゃ"),
        19 => ("ryu", "りゅ"),
        20 => ("ryo", "りょ"),
        21 => ("gya", "ぎゃ"),
        22 => ("gyu", "ぎゅ"),
        23 => ("gyo", "ぎょ"),
        24 => ("ja", "じゃ"),
        25 => ("ju", "じゅ"),
        26 => ("jo", "じょ"),
        27 => ("bya", "びゃ"),
        28 => ("byu", "びゅ"),
        29 => ("byo", "びょ"),
        30 => ("pya", "ぴゃ"),
        31 => ("pyu", "ぴゅ"),
        32 => ("pyo", "ぴょ"),
        33 => ("shi", "し"),
        34 => ("chi", "ち"),
        35 => ("tsu", "つ"),
        36 => ("ka", "か"),
        37 => ("ki", "き"),
        38 => ("ku", "く"),
        39 => ("ke", "け"),
        40 => ("ko", "こ"),
        41 => ("sa", "さ"),
        42 => ("su", "す"),
        43 => ("se", "せ"),
        44 => ("so", "そ"),
        45 => ("ta", "た"),
        46 => ("te", "て"),
        47 => ("to", "と"),
        48 => ("na", "な"),
        49 => ("ni", "に"),
        50 => ("nu", "ぬ"),
        51 => ("ne", "ね"),
        52 => ("no", "の"),
        53 => ("ha", "は"),
        54 => ("hi", "ひ"),
        55 => ("hu", "ふ"),
        56 => ("fu", "ふ"),
        57 => ("he", "へ"),
        58 => ("ho", "ほ"),
        59 => ("ma", "ま"),
        60 => ("mi", "み"),
        61 => ("mu", "む"),
        62 => ("me", "め"),
        63 => ("mo", "も"),
        64 => ("ya", "や"),
        65 => ("yu", "ゆ"),
        66 => ("yo", "よ"),
        67 => ("ra", "ら"),
        68 => ("ri", "り"),
        69 => ("ru", "る"),
        70 => ("re", "れ"),
        71 => ("ro", "ろ"),
        72 => ("wa", "わ"),
        73 => ("wo", "を"),
        74 => ("ga", "が"),
        75 => ("gi", "ぎ"),
        76 => ("gu", "ぐ"),
        77 => ("ge", "げ"),
        78 => ("go", "ご"),
        79 => ("za", "ざ"),
        80 => ("ji", "じ"),
        81 => ("zu", "ず"),
        82 => ("ze", "ぜ"),
        83 => ("zo", "ぞ"),
        84 => ("da", "だ"),
        85 => ("ji", "ぢ"),
        86 => ("zu", "づ"),
        87 => ("de", "で"),
        88 => ("do", "ど"),
        89 => ("ba", "ば"),
        90 => ("bi", "び"),
        91 => ("bu", "ぶ"),
        92 => ("be", "べ"),
        93 => ("bo", "ぼ"),
        94 => ("pa", "ぱ"),
        95 => ("pi", "ぴ"),
        96 => ("pu", "ぷ"),
        97 => ("pe", "ぺ"),
        98 => ("po", "ぽ"),
        99 => ("a", "あ"),
        100 => ("i", "い"),
        101 => ("u", "う"),
        102 => ("e", "え"),
        103 => ("o", "お"),
        104 => ("n", "ん"),
        105 => ("-", "ー"),
        _ => ("", ""),
    }
}

} // verus!
