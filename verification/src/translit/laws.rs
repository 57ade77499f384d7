//! What holds of the encoder and the decoder on every input.
//!
//! Each direction has two parts here. The first reads off its table the
//! facts that the rest relies on. The second proves what the scanner does:
//! what it writes and how much, where its work splits in two, so that what
//! a step does at the cursor can be said of any place in the input, and the
//! laws that follow from that. The last part relates the two directions.

use crate::translit::kana_to_romaji::{
    combo_romaji, encode, encode_step, geminate, is_romaji, is_romaji_char, next_mora,
    single_romaji, vowel, System,
};
use crate::translit::romaji_to_kana::{
    consonant, decode, decode_step, is_first_match, is_hiragana, lemma_decode_step_advances,
    lemma_first_match_unique, lemma_literal_len, literal_match, mapping, matches_at,
    writes_kana_or_copies, MAPPING_COUNT,
};
use vstd::prelude::*;

verus! {

// ----------------------------------------------------------------------
// The spelling tables
// ----------------------------------------------------------------------
/// Whether Hepburn could write `spelling` after a small tsu without the
/// rule for `ch` failing: if it begins with `c`, it goes on with `h`.
pub open spec fn c_goes_with_h(spelling: Seq<char>) -> bool {
    spelling.len() > 0 && spelling[0] == 'c' ==> spelling.len() >= 2 && spelling[1] == 'h'
}

/// A kana is spelled with at most three romaji characters, and the small
/// tsu with none. Hepburn uses `c` only in `ch`.
pub proof fn lemma_spelling_of_kana(c: char, system: System)
    ensures
        single_romaji(c, system).len() <= 3,
        is_romaji(single_romaji(c, system)),
        c == 'ッ' ==> single_romaji(c, system).len() == 0,
        system == System::Hepburn ==> c_goes_with_h(single_romaji(c, system)),
{
    reveal(single_romaji);
}

/// A digraph is spelled with two or three romaji characters, and each of
/// its halves is a kana with a spelling of its own. Hepburn uses `c` only
/// in `ch`.
pub proof fn lemma_spelling_of_digraph(c1: char, c2: char, system: System)
    requires
        combo_romaji(c1, c2, system) is Some,
    ensures
        2 <= combo_romaji(c1, c2, system).unwrap().len() <= 3,
        is_romaji(combo_romaji(c1, c2, system).unwrap()),
        single_romaji(c1, system).len() > 0,
        single_romaji(c2, system).len() > 0,
        system == System::Hepburn ==> c_goes_with_h(combo_romaji(c1, c2, system).unwrap()),
{
    reveal(single_romaji);
    reveal(combo_romaji);
}

/// A character without a spelling of its own is no half of a digraph.
pub proof fn lemma_digraph_needs_kana(c1: char, c2: char, system: System)
    requires
        single_romaji(c1, system).len() == 0 || single_romaji(c2, system).len() == 0,
    ensures
        combo_romaji(c1, c2, system) is None,
{
    if combo_romaji(c1, c2, system) is Some {
        lemma_spelling_of_digraph(c1, c2, system);
    }
}

/// The second half of a digraph is not the first half of another.
pub proof fn lemma_digraphs_do_not_overlap(c1: char, c2: char, c3: char, system: System)
    requires
        combo_romaji(c1, c2, system) is Some,
    ensures
        combo_romaji(c2, c3, system) is None,
{
    reveal(combo_romaji);
}

/// The next mora is spelled with at most three romaji characters, and
/// Hepburn uses `c` only in `ch`.
pub proof fn lemma_spelling_of_next_mora(s: Seq<char>, system: System)
    ensures
        next_mora(s, system).0.len() <= 3,
        is_romaji(next_mora(s, system).0),
        system == System::Hepburn ==> c_goes_with_h(next_mora(s, system).0),
{
    if s.len() > 0 {
        lemma_spelling_of_kana(s[0], system);
        if s.len() >= 2 && combo_romaji(s[0], s[1], system) is Some {
            lemma_spelling_of_digraph(s[0], s[1], system);
        }
    }
}

/// The two systems spell a kana differently exactly where Hepburn departs
/// from the kana grid: at シ, チ, ツ, フ, ジ and ヂ.
pub proof fn lemma_systems_differ_on_kana(c: char)
    ensures
        single_romaji(c, System::Hepburn) != single_romaji(c, System::Kunrei) <==> (c == 'シ'
            || c == 'チ' || c == 'ツ' || c == 'フ' || c == 'ジ' || c == 'ヂ'),
{
    reveal(single_romaji);
    let hepburn = single_romaji(c, System::Hepburn);
    let kunrei = single_romaji(c, System::Kunrei);
    if hepburn.len() == kunrei.len() && hepburn.len() >= 2 {
        assert(hepburn == kunrei ==> hepburn[0] == kunrei[0] && hepburn[1] == kunrei[1]);
    }
}

/// The two systems recognise the same digraphs, and spell one differently
/// exactly where it begins with シ, チ, ジ or ヂ.
pub proof fn lemma_systems_differ_on_digraphs(c1: char, c2: char)
    ensures
        combo_romaji(c1, c2, System::Hepburn) is Some <==> combo_romaji(c1, c2, System::Kunrei)
            is Some,
        combo_romaji(c1, c2, System::Hepburn) is Some ==> (combo_romaji(c1, c2, System::Hepburn)
            != combo_romaji(c1, c2, System::Kunrei) <==> (c1 == 'シ' || c1 == 'チ' || c1 == 'ジ'
            || c1 == 'ヂ')),
{
    reveal(combo_romaji);
    if combo_romaji(c1, c2, System::Hepburn) is Some {
        let hepburn = combo_romaji(c1, c2, System::Hepburn).unwrap();
        let kunrei = combo_romaji(c1, c2, System::Kunrei).unwrap();
        if hepburn.len() == kunrei.len() {
            assert(hepburn == kunrei ==> hepburn[0] == kunrei[0] && hepburn[1] == kunrei[1]);
        }
    }
}

// ----------------------------------------------------------------------
// The encoder
// ----------------------------------------------------------------------
/// Encoding nothing writes nothing, under either system.
pub proof fn lemma_encode_empty(system: System)
    ensures
        encode(Seq::empty(), system) == Seq::<char>::empty(),
{
}

/// A step writes romaji characters only, at most three of them, and
/// consumes one kana or two.
pub proof fn lemma_encode_step(s: Seq<char>, system: System)
    requires
        s.len() > 0,
    ensures
        is_romaji(encode_step(s, system).0),
        encode_step(s, system).0.len() <= 3,
        1 <= encode_step(s, system).1 <= 2,
        encode_step(s, system).1 <= s.len(),
{
    lemma_spelling_of_kana(s[0], system);
    if s.len() >= 2 {
        if combo_romaji(s[0], s[1], system) is Some {
            lemma_spelling_of_digraph(s[0], s[1], system);
        }
        // What a small tsu writes is `t` or the first letter of a spelling.
        lemma_spelling_of_next_mora(s.skip(1), system);
    }
}

/// The encoder writes romaji characters only: lowercase ASCII letters and
/// the long-vowel mark.
pub proof fn lemma_encode_is_romaji(s: Seq<char>, system: System)
    ensures
        is_romaji(encode(s, system)),
    decreases s.len(),
{
    if s.len() > 0 {
        lemma_encode_step(s, system);
        let (written, consumed) = encode_step(s, system);
        lemma_encode_is_romaji(s.skip(consumed as int), system);
    }
}

/// The encoder writes at most three characters for each kana it reads.
pub proof fn lemma_encode_len(s: Seq<char>, system: System)
    ensures
        encode(s, system).len() <= 3 * s.len(),
    decreases s.len(),
{
    if s.len() > 0 {
        lemma_encode_step(s, system);
        let (written, consumed) = encode_step(s, system);
        lemma_encode_len(s.skip(consumed as int), system);
    }
}

/// Whether the encoder treats what is before `i` and what is after it
/// apart: no digraph lies across `i`, and no small tsu just before `i`
/// takes a consonant from what follows.
pub open spec fn splits_at(s: Seq<char>, i: int, system: System) -> bool {
    0 < i < s.len() ==> {
        &&& combo_romaji(s[i - 1], s[i], system) is None
        &&& s[i - 1] == 'ッ' ==> geminate(next_mora(s.skip(i), system).0, system).len() == 0
    }
}

/// The step at the front of `s` is the same when `s` is cut at `i`.
proof fn lemma_encode_step_of_cut(s: Seq<char>, i: int, system: System)
    requires
        1 <= i < s.len(),
        splits_at(s, i, system),
    ensures
        encode_step(s.take(i), system) == encode_step(s, system),
        encode_step(s, system).1 <= i,
{
    let head = s.take(i);
    assert(head[0] == s[0]);
    if i == 1 {
        // The cut leaves one kana. No digraph begins with it, and if it is a
        // small tsu it writes nothing on either side of the cut.
        lemma_spelling_of_kana('ッ', system);
    } else {
        // The cut leaves the two kana that decide the step, and what a small
        // tsu in front sees of the next mora.
        assert(head[1] == s[1]);
        assert(next_mora(head.skip(1), system) == next_mora(s.skip(1), system));
    }
}

/// Where the encoder treats the two sides of `i` apart, the encoding of `s`
/// is the encoding of what is before `i`, as if the input ended there,
/// followed by the encoding of what is after it.
pub proof fn lemma_encode_splits(s: Seq<char>, i: int, system: System)
    requires
        0 <= i <= s.len(),
        splits_at(s, i, system),
    ensures
        encode(s, system) == encode(s.take(i), system) + encode(s.skip(i), system),
    decreases s.len(),
{
    let head = s.take(i);
    let tail = s.skip(i);
    if i == 0 {
        assert(head =~= Seq::<char>::empty());
        assert(tail =~= s);
    } else if i == s.len() {
        assert(head =~= s);
        assert(tail =~= Seq::<char>::empty());
    } else {
        // Both sequences take the same first step; what is left of them
        // splits by induction.
        lemma_encode_step_of_cut(s, i, system);
        let (written, consumed) = encode_step(s, system);
        let rest = s.skip(consumed as int);
        assert(splits_at(rest, i - consumed, system)) by {
            assert(rest.skip(i - consumed) =~= tail);
        }
        lemma_encode_splits(rest, i - consumed, system);
        assert(rest.take(i - consumed) =~= head.skip(consumed as int));
        assert(rest.skip(i - consumed) =~= tail);
    }
}

/// The encoder treats apart what is before and what is after the start of
/// a character without a spelling of its own, the small tsu among them.
pub proof fn lemma_splits_at_unspelled(s: Seq<char>, i: int, system: System)
    requires
        0 <= i < s.len(),
        single_romaji(s[i], system).len() == 0,
    ensures
        splits_at(s, i, system),
{
    if 0 < i {
        lemma_digraph_needs_kana(s[i - 1], s[i], system);
        if i + 1 < s.len() {
            lemma_digraph_needs_kana(s[i], s[i + 1], system);
        }
    }
}

/// The encoder treats apart what is before and what is after the start of
/// a digraph, unless a small tsu stands just before it.
pub proof fn lemma_splits_at_digraph(s: Seq<char>, i: int, system: System)
    requires
        0 <= i,
        i + 1 < s.len(),
        combo_romaji(s[i], s[i + 1], system) is Some,
        i > 0 ==> s[i - 1] != 'ッ',
    ensures
        splits_at(s, i, system),
{
    if 0 < i && combo_romaji(s[i - 1], s[i], system) is Some {
        lemma_digraphs_do_not_overlap(s[i - 1], s[i], s[i + 1], system);
    }
}

/// A pair of kana that forms a digraph is spelled as one unit, never as its
/// two halves, wherever in the input it stands. (After a small tsu the
/// same holds, and the small tsu writes its consonant in between.)
pub proof fn lemma_digraph_is_one_unit(s: Seq<char>, i: int, system: System)
    requires
        0 <= i,
        i + 1 < s.len(),
        combo_romaji(s[i], s[i + 1], system) is Some,
        i > 0 ==> s[i - 1] != 'ッ',
    ensures
        encode(s, system) == encode(s.take(i), system) + combo_romaji(
            s[i],
            s[i + 1],
            system,
        ).unwrap() + encode(s.skip(i + 2), system),
{
    let tail = s.skip(i);
    let unit = combo_romaji(s[i], s[i + 1], system).unwrap();
    lemma_splits_at_digraph(s, i, system);
    lemma_encode_splits(s, i, system);
    assert(encode_step(tail, system) == (unit, 2nat));
    assert(tail.skip(2) =~= s.skip(i + 2));
}

/// A small tsu in front of a mora writes what doubles that mora, wherever
/// in the input it stands, and the mora is spelled after it as usual.
pub proof fn lemma_small_tsu_doubles_next_mora(s: Seq<char>, i: int, system: System)
    requires
        0 <= i,
        i + 1 < s.len(),
        s[i] == 'ッ',
    ensures
        encode(s, system) == encode(s.take(i), system) + geminate(
            next_mora(s.skip(i + 1), system).0,
            system,
        ) + encode(s.skip(i + 1), system),
{
    let tail = s.skip(i);
    let doubled = geminate(next_mora(s.skip(i + 1), system).0, system);
    lemma_spelling_of_kana('ッ', system);
    lemma_splits_at_unspelled(s, i, system);
    lemma_encode_splits(s, i, system);
    assert(tail.skip(1) =~= s.skip(i + 1));
    lemma_digraph_needs_kana(tail[0], tail[1], system);
    assert(encode_step(tail, system) == (doubled, 1nat));
}

/// In front of a mora that Hepburn spells with `ch`, a small tsu writes `t`,
/// not `c`, wherever in the input it stands.
pub proof fn lemma_hepburn_doubles_ch_with_t(s: Seq<char>, i: int)
    requires
        0 <= i,
        i + 1 < s.len(),
        s[i] == 'ッ',
        seq!['c', 'h'].is_prefix_of(next_mora(s.skip(i + 1), System::Hepburn).0),
    ensures
        encode(s, System::Hepburn) == encode(s.take(i), System::Hepburn) + seq!['t'] + encode(
            s.skip(i + 1),
            System::Hepburn,
        ),
{
    let next = next_mora(s.skip(i + 1), System::Hepburn).0;
    assert(next[0] == 'c' && next[1] == 'h') by {
        assert(seq!['c', 'h'] =~= next.subrange(0, 2));
    }
    assert(geminate(next, System::Hepburn) == seq!['t']);
    lemma_small_tsu_doubles_next_mora(s, i, System::Hepburn);
}

/// Under Hepburn a small tsu never writes `c`, whatever follows it.
pub proof fn lemma_hepburn_never_doubles_c(s: Seq<char>)
    ensures
        geminate(next_mora(s, System::Hepburn).0, System::Hepburn) != seq!['c'],
{
    let next = next_mora(s, System::Hepburn).0;
    let doubled = geminate(next, System::Hepburn);
    lemma_spelling_of_next_mora(s, System::Hepburn);
    if doubled == seq!['c'] {
        assert(doubled[0] == 'c');
    }
}

/// A character outside the kana repertoire adds nothing to the encoding,
/// wherever in the input it stands: the output is what is written for the
/// kana before it, followed by what is written for the kana after it.
pub proof fn lemma_unmapped_kana_is_dropped(s: Seq<char>, i: int, system: System)
    requires
        0 <= i < s.len(),
        single_romaji(s[i], system).len() == 0,
        s[i] != 'ッ',
    ensures
        encode(s, system) == encode(s.take(i), system) + encode(s.skip(i + 1), system),
        encode(s, system).len() == encode(s.take(i), system).len() + encode(
            s.skip(i + 1),
            system,
        ).len(),
{
    let tail = s.skip(i);
    lemma_splits_at_unspelled(s, i, system);
    lemma_encode_splits(s, i, system);
    assert(tail.skip(1) =~= s.skip(i + 1));
    if tail.len() >= 2 {
        lemma_digraph_needs_kana(tail[0], tail[1], system);
    }
    assert(encode_step(tail, system).0 =~= Seq::<char>::empty());
}

// ----------------------------------------------------------------------
// The table of literals
// ----------------------------------------------------------------------
/// Whether `c` occurs in some literal of the table.
pub open spec fn occurs_in_literals(c: char) -> bool {
    exists|k: usize, p: int|
        k < MAPPING_COUNT && 0 <= p < mapping(k).0.len() && #[trigger] mapping(k).0[p] == c
}

/// Every literal is made of romaji characters. One of two or three
/// characters ends in a vowel, has only `y`, `h`, `s` or a vowel after its
/// first character, and never has the same character twice in a row. It
/// stands for one kana or two.
pub proof fn lemma_literal_shape(k: usize)
    requires
        k < MAPPING_COUNT,
    ensures
        ({
            let literal = mapping(k).0;
            &&& 1 <= literal.len() <= 3
            &&& is_romaji(literal)
            &&& literal.len() >= 2 ==> vowel(literal.last())
            &&& literal.len() >= 2 ==> literal[0] != literal[1]
            &&& literal.len() == 3 ==> literal[1] != literal[2] && (literal[1] == 'y'
                || literal[1] == 'h' || literal[1] == 's')
            &&& 1 <= mapping(k).1.len() <= 2
            &&& forall|p: int| 0 <= p < mapping(k).1.len() ==> is_hiragana(#[trigger] mapping(k).1[p])
        }),
{
    reveal(mapping);
}

/// No literal is listed before a longer one that begins with it.
pub proof fn lemma_literal_order(i: usize, j: usize)
    requires
        i < j < MAPPING_COUNT,
        mapping(i).0.len() < mapping(j).0.len(),
    ensures
        !mapping(i).0.is_prefix_of(mapping(j).0),
{
    reveal(mapping);
}

/// The literal `n` is in the table and stands for ん.
pub proof fn lemma_literal_n() -> (k: usize)
    ensures
        k < MAPPING_COUNT,
        mapping(k).0 == seq!['n'],
        mapping(k).1 == seq!['ん'],
        forall|j: usize| j < MAPPING_COUNT && mapping(j).0.len() == 1 && mapping(j).0[0] == 'n' ==> j == k,
{
    reveal(mapping);
    104
}

/// A literal of one character is a vowel, `n` or the long-vowel mark.
pub proof fn lemma_single_letters_are_no_consonants(k: usize)
    requires
        k < MAPPING_COUNT,
        mapping(k).0.len() == 1,
    ensures
        !consonant(mapping(k).0[0]),
{
    reveal(mapping);
}

/// Where a literal begins `s`, its characters are the first of `s`.
pub proof fn lemma_match_chars(s: Seq<char>, k: usize)
    requires
        matches_at(s, k),
    ensures
        mapping(k).0.len() <= s.len(),
        forall|i: int| 0 <= i < mapping(k).0.len() ==> mapping(k).0[i] == s[i],
{
    let literal = mapping(k).0;
    assert forall|i: int| 0 <= i < literal.len() implies literal[i] == s[i] by {
        assert(literal[i] == s.subrange(0, literal.len() as int)[i]);
    }
}

/// Among the literals that begin `s`, one is the first.
pub proof fn lemma_some_match_is_first(s: Seq<char>, k: usize)
    requires
        matches_at(s, k),
    ensures
        exists|first: usize| first <= k && is_first_match(s, first),
    decreases k,
{
    if exists|j: usize| j < k && matches_at(s, j) {
        let j = choose|j: usize| j < k && matches_at(s, j);
        lemma_some_match_is_first(s, j);
    } else {
        assert(is_first_match(s, k));
    }
}

/// The literal that the table finds is the longest one that begins `s`.
pub proof fn lemma_first_match_is_longest(s: Seq<char>, k: usize, j: usize)
    requires
        is_first_match(s, k),
        matches_at(s, j),
    ensures
        mapping(j).0.len() <= mapping(k).0.len(),
{
    let first = mapping(k).0;
    let other = mapping(j).0;
    if other.len() > first.len() {
        // Both begin `s`, so the shorter begins the longer, and then it is
        // not listed before it.
        assert(first.is_prefix_of(other)) by {
            lemma_match_chars(s, k);
            lemma_match_chars(s, j);
        }
        lemma_literal_order(k, j);
    }
}

/// A character that occurs in literals is a romaji character: anything
/// else occurs in none.
pub proof fn lemma_literals_are_romaji(c: char)
    requires
        occurs_in_literals(c),
    ensures
        is_romaji_char(c),
{
    let (k, p) = choose|k: usize, p: int|
        k < MAPPING_COUNT && 0 <= p < mapping(k).0.len() && #[trigger] mapping(k).0[p] == c;
    lemma_literal_shape(k);
}

// ----------------------------------------------------------------------
// The decoder
// ----------------------------------------------------------------------
/// Decoding nothing writes nothing.
pub proof fn lemma_decode_empty()
    ensures
        decode(Seq::empty()) == Seq::<char>::empty(),
{
}

/// A step writes one character or two and consumes between one and three.
pub proof fn lemma_decode_step(s: Seq<char>)
    requires
        s.len() > 0,
    ensures
        1 <= decode_step(s).0.len() <= 2,
        1 <= decode_step(s).1 <= 3,
        decode_step(s).1 <= s.len(),
{
    if exists|k: usize| is_first_match(s, k) {
        let k = choose|k: usize| is_first_match(s, k);
        lemma_literal_shape(k);
    }
}

/// The decoder writes at most two characters for each one it reads.
pub proof fn lemma_decode_len(s: Seq<char>)
    ensures
        decode(s).len() <= 2 * s.len(),
    decreases s.len(),
{
    if s.len() > 0 {
        lemma_decode_step(s);
        let (written, consumed) = decode_step(s);
        lemma_decode_len(s.skip(consumed as int));
    }
}

/// Whatever the decoder writes is hiragana, the long-vowel mark, or a
/// character of its input.
pub proof fn lemma_decode_writes_kana_or_copies(s: Seq<char>)
    ensures
        writes_kana_or_copies(s, decode(s)),
    decreases s.len(),
{
    if s.len() > 0 {
        let (written, consumed) = decode_step(s);
        let rest = s.skip(consumed as int);
        lemma_decode_step_advances(s);
        lemma_decode_writes_kana_or_copies(rest);
        if exists|k: usize| is_first_match(s, k) {
            let k = choose|k: usize| is_first_match(s, k);
            lemma_literal_shape(k);
        }
        assert forall|p: int| 0 <= p < decode(s).len() implies is_hiragana(#[trigger] decode(s)[p])
            || s.contains(decode(s)[p]) by {
            if p >= written.len() {
                // Written by a later step: a kana, or a character of the
                // rest, which is a character of `s`.
                let c = decode(rest)[p - written.len()];
                if rest.contains(c) {
                    let q = choose|q: int| 0 <= q < rest.len() && rest[q] == c;
                    assert(s[consumed + q] == c);
                }
            } else {
                // Written by this step: the kana of a literal, a small
                // tsu, or the first character of `s`.
                assert(s.contains(s[0]));
            }
        }
    }
}

/// Whether the characters at `i` and `i + 1` of `s` are a doubled consonant.
pub open spec fn doubled_at(s: Seq<char>, i: int) -> bool {
    0 <= i && i + 1 < s.len() && s[i] == s[i + 1] && consonant(s[i])
}

/// Whether no literal that begins in `s` before position `i` reaches
/// position `i`.
pub open spec fn no_literal_across(s: Seq<char>, i: int) -> bool {
    forall|j: int, k: usize|
        0 <= j < i && #[trigger] matches_at(s.skip(j), k) ==> j + mapping(k).0.len() <= i
}

/// The step at the front of `s` is the same when `s` is cut at `i`, if no
/// literal reaches `i` from before and no doubled consonant is cut in two.
proof fn lemma_decode_step_of_cut(s: Seq<char>, i: int)
    requires
        1 <= i <= s.len(),
        no_literal_across(s, i),
        !doubled_at(s, i - 1),
    ensures
        decode_step(s.take(i)) == decode_step(s),
        decode_step(s).1 <= i,
{
    let head = s.take(i);
    assert(s.skip(0) =~= s);
    if exists|k: usize| is_first_match(s, k) {
        // The literal found in `s` ends before the cut, so it begins the
        // head as well; a literal that begins the head begins `s`.
        let k = choose|k: usize| is_first_match(s, k);
        assert(matches_at(s.skip(0), k));
        assert(matches_at(head, k));
        assert forall|j: usize| j < k implies !matches_at(head, j) by {
            if matches_at(head, j) {
                assert(matches_at(s, j));
            }
        }
        lemma_first_match_unique(head, k);
    } else {
        // No literal begins `s`, so none begins the head, and the cut does
        // not part a doubled consonant.
        assert forall|k: usize| !is_first_match(head, k) by {
            if matches_at(head, k) {
                assert(matches_at(s, k));
                lemma_some_match_is_first(s, k);
            }
        }
        assert(doubled_at(head, 0) == doubled_at(s, 0));
    }
}

/// The decoding of `s` splits at `i`, if no literal reaches `i` from before
/// and no doubled consonant is cut in two: the characters before `i` are
/// decoded as if the input ended there.
pub proof fn lemma_decode_splits(s: Seq<char>, i: int)
    requires
        0 <= i <= s.len(),
        no_literal_across(s, i),
        !doubled_at(s, i - 1),
    ensures
        decode(s) == decode(s.take(i)) + decode(s.skip(i)),
    decreases i,
{
    let head = s.take(i);
    let tail = s.skip(i);
    if i == 0 {
        assert(head =~= Seq::<char>::empty());
        assert(tail =~= s);
    } else {
        // Both sequences take the same first step; what is left of them
        // splits by induction.
        lemma_decode_step_of_cut(s, i);
        lemma_decode_step_advances(s);
        let (written, consumed) = decode_step(s);
        let rest = s.skip(consumed as int);
        assert(no_literal_across(rest, i - consumed)) by {
            assert forall|j: int, k: usize|
                0 <= j < i - consumed && #[trigger] matches_at(rest.skip(j), k) implies j
                + mapping(k).0.len() <= i - consumed by {
                assert(rest.skip(j) =~= s.skip(consumed + j));
            }
        }
        lemma_decode_splits(rest, i - consumed);
        assert(rest.take(i - consumed) =~= head.skip(consumed as int));
        assert(rest.skip(i - consumed) =~= tail);
    }
}

/// A literal that begins at `i` is read as its kana, if it is the first of
/// the table to begin there, no literal reaches `i` from before and no
/// doubled consonant ends at `i`.
pub proof fn lemma_literal_is_read(s: Seq<char>, i: int, k: usize)
    requires
        0 <= i <= s.len(),
        no_literal_across(s, i),
        !doubled_at(s, i - 1),
        is_first_match(s.skip(i), k),
    ensures
        i + mapping(k).0.len() <= s.len(),
        decode(s) == decode(s.take(i)) + mapping(k).1 + decode(s.skip(i + mapping(k).0.len())),
{
    let tail = s.skip(i);
    let consumed = mapping(k).0.len();
    lemma_decode_splits(s, i);
    lemma_first_match_unique(tail, k);
    lemma_literal_len(k);
    assert(tail.skip(consumed as int) =~= s.skip(i + consumed));
}

/// A character that is not `y`, `h`, `s` or a vowel is reached by no
/// literal that begins before it.
pub proof fn lemma_onset_is_not_crossed(s: Seq<char>, i: int)
    requires
        0 <= i < s.len(),
        s[i] != 'y' && s[i] != 'h' && s[i] != 's' && !vowel(s[i]),
    ensures
        no_literal_across(s, i),
{
    assert forall|j: int, k: usize|
        0 <= j < i && #[trigger] matches_at(s.skip(j), k) implies j + mapping(k).0.len() <= i by {
        if j + mapping(k).0.len() > i {
            // The literal would have the character at `i` after its first.
            lemma_match_chars(s.skip(j), k);
            lemma_literal_shape(k);
            assert(mapping(k).0[i - j] == s[i]);
        }
    }
}

/// The first of a doubled consonant is reached by no literal that begins
/// before it.
pub proof fn lemma_doubled_consonant_is_not_crossed(s: Seq<char>, i: int)
    requires
        doubled_at(s, i),
    ensures
        no_literal_across(s, i),
{
    assert forall|j: int, k: usize|
        0 <= j < i && #[trigger] matches_at(s.skip(j), k) implies j + mapping(k).0.len() <= i by {
        if j + mapping(k).0.len() > i {
            // The literal would end in the consonant, or have it twice in
            // a row.
            lemma_match_chars(s.skip(j), k);
            lemma_literal_shape(k);
            let literal = mapping(k).0;
            let p = i - j;
            assert(literal[p] == s[i]);
            if p + 1 < literal.len() {
                assert(literal[p + 1] == s[i + 1]);
            }
        }
    }
}

/// No literal begins with a doubled consonant.
pub proof fn lemma_doubled_consonant_has_no_literal(s: Seq<char>)
    requires
        doubled_at(s, 0),
    ensures
        literal_match(s) is None,
{
    assert forall|k: usize| !is_first_match(s, k) by {
        if matches_at(s, k) {
            lemma_match_chars(s, k);
            lemma_literal_shape(k);
            let literal = mapping(k).0;
            assert(literal[0] == s[0]);
            if literal.len() >= 2 {
                assert(literal[1] == s[1]);
            } else {
                lemma_single_letters_are_no_consonants(k);
            }
        }
    }
}

/// An `n` in front of another `n` is read as the literal `n`.
pub proof fn lemma_n_before_n(s: Seq<char>)
    requires
        s.len() >= 2,
        s[0] == 'n',
        s[1] == 'n',
    ensures
        literal_match(s) == Some((1nat, seq!['ん'])),
{
    let k = lemma_literal_n();
    assert(matches_at(s, k)) by {
        assert(mapping(k).0 =~= s.subrange(0, 1));
    }
    // The first literal to begin `s` begins with `n` and does not go on
    // with another `n`: it is `n` itself.
    lemma_some_match_is_first(s, k);
    let first = choose|first: usize| first <= k && is_first_match(s, first);
    lemma_match_chars(s, first);
    lemma_literal_shape(first);
    assert(mapping(first).0[0] == 'n');
    assert(mapping(first).0.len() == 1);
    assert(first == k);
    lemma_first_match_unique(s, k);
}

/// A doubled `n` is not a small tsu, wherever in the input it stands: the
/// first `n` is read as the literal `n`, and the second begins the next step.
pub proof fn lemma_double_n_is_not_geminated(s: Seq<char>, i: int)
    requires
        0 <= i,
        i + 1 < s.len(),
        s[i] == 'n',
        s[i + 1] == 'n',
    ensures
        decode(s) == decode(s.take(i)) + seq!['ん'] + decode(s.skip(i + 1)),
{
    let tail = s.skip(i);
    lemma_onset_is_not_crossed(s, i);
    lemma_decode_splits(s, i);
    assert(tail.skip(1) =~= s.skip(i + 1));
    lemma_n_before_n(tail);
}

/// A doubled consonant that is not itself the end of a doubled consonant
/// writes a small tsu for the first of the pair, and the second begins the
/// next step.
pub proof fn lemma_doubled_consonant_is_small_tsu(s: Seq<char>, i: int)
    requires
        doubled_at(s, i),
        !doubled_at(s, i - 1),
    ensures
        decode(s) == decode(s.take(i)) + seq!['っ'] + decode(s.skip(i + 1)),
{
    let tail = s.skip(i);
    lemma_doubled_consonant_is_not_crossed(s, i);
    lemma_decode_splits(s, i);
    assert(tail.skip(1) =~= s.skip(i + 1));
    lemma_doubled_consonant_has_no_literal(tail);
}

/// Where no literal begins `s` and `s` does not begin with a doubled
/// consonant, the step copies one character.
pub proof fn lemma_step_copies_what_it_cannot_read(s: Seq<char>)
    requires
        s.len() >= 1,
        literal_match(s) is None,
        !doubled_at(s, 0),
    ensures
        decode(s) == seq![s[0]] + decode(s.skip(1)),
        decode(s).len() == decode(s.skip(1)).len() + 1,
{
}

/// A character that occurs in no literal and is not part of a doubled
/// consonant is copied as it is, wherever in the input it stands: the
/// output is what is written for the characters before it, then the
/// character, then what is written for the characters after it.
pub proof fn lemma_unmatched_is_copied(s: Seq<char>, i: int)
    requires
        0 <= i < s.len(),
        !occurs_in_literals(s[i]),
        !doubled_at(s, i - 1),
        !doubled_at(s, i),
    ensures
        decode(s) == decode(s.take(i)) + seq![s[i]] + decode(s.skip(i + 1)),
        decode(s).len() == decode(s.take(i)).len() + 1 + decode(s.skip(i + 1)).len(),
{
    let tail = s.skip(i);
    assert(no_literal_across(s, i)) by {
        assert forall|j: int, k: usize|
            0 <= j < i && #[trigger] matches_at(s.skip(j), k) implies j + mapping(k).0.len()
            <= i by {
            if j + mapping(k).0.len() > i {
                lemma_match_chars(s.skip(j), k);
                assert(mapping(k).0[i - j] == s[i]);
            }
        }
    }
    lemma_decode_splits(s, i);
    assert(tail.skip(1) =~= s.skip(i + 1));
    assert(literal_match(tail) is None) by {
        assert forall|k: usize| !is_first_match(tail, k) by {
            if matches_at(tail, k) {
                lemma_match_chars(tail, k);
                lemma_literal_len(k);
                assert(mapping(k).0[0] == s[i]);
            }
        }
    }
}

// ----------------------------------------------------------------------
// Both directions
// ----------------------------------------------------------------------
/// Where nothing in the input is a kana, the encoder writes nothing.
pub proof fn lemma_encode_without_kana(s: Seq<char>, system: System)
    requires
        forall|i: int| 0 <= i < s.len() ==> single_romaji(#[trigger] s[i], system).len() == 0,
    ensures
        encode(s, system) == Seq::<char>::empty(),
    decreases s.len(),
{
    if s.len() > 0 {
        let rest = s.skip(1);
        assert(single_romaji(s[0], system) =~= Seq::<char>::empty());
        if s.len() >= 2 {
            assert(single_romaji(s[1], system).len() == 0);
            lemma_digraph_needs_kana(s[0], s[1], system);
            assert(rest[0] == s[1]);
            if rest.len() >= 2 {
                assert(single_romaji(rest[1], system).len() == 0);
                lemma_digraph_needs_kana(rest[0], rest[1], system);
            }
            assert(geminate(next_mora(rest, system).0, system) =~= Seq::<char>::empty());
        }
        assert(encode_step(s, system) == (Seq::<char>::empty(), 1nat));
        assert forall|i: int| 0 <= i < rest.len() implies single_romaji(
            #[trigger] rest[i],
            system,
        ).len() == 0 by {
            assert(rest[i] == s[i + 1]);
        }
        lemma_encode_without_kana(rest, system);
    }
}

/// Where nothing in the input occurs in a literal or is a consonant letter,
/// the decoder writes its input as it is.
pub proof fn lemma_decode_without_romaji(s: Seq<char>)
    requires
        forall|i: int| 0 <= i < s.len() ==> !occurs_in_literals(#[trigger] s[i]) && !consonant(s[i]),
    ensures
        decode(s) == s,
    decreases s.len(),
{
    if s.len() > 0 {
        let rest = s.skip(1);
        assert(!occurs_in_literals(s[0]) && !consonant(s[0]));
        assert(literal_match(s) is None) by {
            assert forall|k: usize| !is_first_match(s, k) by {
                if matches_at(s, k) {
                    lemma_match_chars(s, k);
                    lemma_literal_len(k);
                    assert(mapping(k).0[0] == s[0]);
                }
            }
        }
        assert forall|i: int| 0 <= i < rest.len() implies !occurs_in_literals(#[trigger] rest[i])
            && !consonant(rest[i]) by {
            assert(rest[i] == s[i + 1]);
        }
        lemma_decode_without_romaji(rest);
        assert(seq![s[0]] + rest =~= s);
    }
}


/// The encoding of a single kana is its spelling.
pub proof fn lemma_encode_single(c: char, system: System)
    ensures
        encode(seq![c], system) == single_romaji(c, system),
{
    let s = seq![c];
    assert(encode_step(s, system) == (single_romaji(c, system), 1nat));
    assert(encode(s, system) =~= single_romaji(c, system) + encode(s.skip(1), system));
}

/// Two different kana sequences can have the same Hepburn spelling.
pub proof fn lemma_encode_is_many_to_one()
    ensures
        exists|a: Seq<char>, b: Seq<char>|
            a != b && #[trigger] encode(a, System::Hepburn) == #[trigger] encode(
                b,
                System::Hepburn,
            ),
{
    let a = seq!['ジ'];
    let b = seq!['ヂ'];
    assert(a[0] != b[0]);
    lemma_encode_single('ジ', System::Hepburn);
    lemma_encode_single('ヂ', System::Hepburn);
    assert(single_romaji('ジ', System::Hepburn) == single_romaji('ヂ', System::Hepburn)) by {
        reveal(single_romaji);
    }
    assert(encode(a, System::Hepburn) == encode(b, System::Hepburn));
}

/// No function from romaji back to kana undoes the Hepburn encoding of
/// every input.
pub proof fn lemma_no_decoder_inverts_encode(back: spec_fn(Seq<char>) -> Seq<char>)
    ensures
        exists|x: Seq<char>| back(#[trigger] encode(x, System::Hepburn)) != x,
{
    lemma_encode_is_many_to_one();
    let (a, b) = choose|a: Seq<char>, b: Seq<char>|
        a != b && #[trigger] encode(a, System::Hepburn) == #[trigger] encode(b, System::Hepburn);
    if back(encode(a, System::Hepburn)) == a {
        assert(back(encode(b, System::Hepburn)) != b);
    }
}

/// A round trip is not guaranteed: decoding an encoding does not always
/// give back the input in the other script, however the two scripts are
/// paired off one to one.
pub proof fn lemma_round_trip_is_not_guaranteed(normalize: spec_fn(Seq<char>) -> Seq<char>)
    requires
        forall|a: Seq<char>, b: Seq<char>|
            a != b ==> #[trigger] normalize(a) != #[trigger] normalize(b),
    ensures
        exists|x: Seq<char>| decode(#[trigger] encode(x, System::Hepburn)) != normalize(x),
{
    lemma_encode_is_many_to_one();
    let (a, b) = choose|a: Seq<char>, b: Seq<char>|
        a != b && #[trigger] encode(a, System::Hepburn) == #[trigger] encode(b, System::Hepburn);
    if decode(encode(a, System::Hepburn)) == normalize(a) {
        assert(decode(encode(b, System::Hepburn)) != normalize(b));
    }
}

} // verus!
