use buchikun::translit::romaji_to_kana::{
    find_match, is_consonant, mapping_at, romaji_to_kana, MAPPING_COUNT,
};

#[test]
fn test_basic() {
    assert_eq!(romaji_to_kana("konnichiha"), "こんにちは");
    assert_eq!(romaji_to_kana("arigatou"), "ありがとう");
}

#[test]
fn romaji_to_kana_test_small_tsu() {
    assert_eq!(romaji_to_kana("gakkou"), "がっこう");
    assert_eq!(romaji_to_kana("zettai"), "ぜったい");
}

#[test]
fn test_contracted() {
    assert_eq!(romaji_to_kana("shumi"), "しゅみ");
    assert_eq!(romaji_to_kana("tokyo"), "ときょ");
}

#[test]
fn test_mixed() {
    assert_eq!(romaji_to_kana("romaji"), "ろまじ");
}

#[test]
fn decode_empty_input_is_empty() {
    assert_eq!(romaji_to_kana(""), "");
}

#[test]
fn doubled_n_is_not_a_small_tsu() {
    assert_eq!(romaji_to_kana("konnichi"), "こんにち");
    assert_eq!(romaji_to_kana("nn"), "んん");
    assert_eq!(romaji_to_kana("onna"), "おんな");
    assert!(!romaji_to_kana("konnichi").contains('っ'));
}

#[test]
fn unmatched_characters_are_copied_by_the_decoder() {
    assert_eq!(romaji_to_kana("x"), "x");
    assert_eq!(romaji_to_kana("kaxka"), "かxか");
    assert_eq!(romaji_to_kana("k"), "k");
    assert_eq!(romaji_to_kana("kt"), "kt");
    assert_eq!(romaji_to_kana("1 2"), "1 2");
    assert_eq!(romaji_to_kana("カナ"), "カナ");
    assert_eq!(romaji_to_kana("ka!"), "か!");
    assert_eq!(
        romaji_to_kana("kaxka").chars().count(),
        romaji_to_kana("kaka").chars().count() + 1
    );
}

#[test]
fn doubled_consonant_is_a_small_tsu() {
    assert_eq!(romaji_to_kana("kappa"), "かっぱ");
    assert_eq!(romaji_to_kana("matcha"), "まtちゃ");
    assert_eq!(romaji_to_kana("issho"), "いっしょ");
    assert_eq!(romaji_to_kana("tt"), "っt");
    assert_eq!(romaji_to_kana("ttt"), "っっt");
    assert_eq!(romaji_to_kana("xx"), "っx");
    // Letters of either case count; digits and kana do not.
    assert_eq!(romaji_to_kana("KK"), "っK");
    assert_eq!(romaji_to_kana("11"), "11");
    assert_eq!(romaji_to_kana("ーー"), "ーー");
    // A doubled vowel is two vowels.
    assert_eq!(romaji_to_kana("aa"), "ああ");
}

#[test]
fn longer_literal_wins() {
    assert_eq!(romaji_to_kana("kya"), "きゃ");
    assert_eq!(romaji_to_kana("nya"), "にゃ");
    assert_eq!(romaji_to_kana("na"), "な");
    assert_eq!(romaji_to_kana("n"), "ん");
    assert_eq!(romaji_to_kana("shi"), "し");
    assert_eq!(romaji_to_kana("tsu"), "つ");
    assert_eq!(romaji_to_kana("chi"), "ち");
    assert_eq!(romaji_to_kana("ja"), "じゃ");
    assert_eq!(romaji_to_kana("sho-"), "しょー");
}

#[test]
fn earlier_literal_wins_among_equals() {
    assert_eq!(romaji_to_kana("ji"), "じ");
    assert_eq!(romaji_to_kana("zu"), "ず");
    assert_eq!(romaji_to_kana("hu"), "ふ");
    assert_eq!(romaji_to_kana("fu"), "ふ");
}

#[test]
fn find_match_reports_length_and_kana() {
    let kyou: Vec<char> = "kyou".chars().collect();
    assert_eq!(find_match(&kyou), Some((3, "きょ")));
    let ka: Vec<char> = "ka".chars().collect();
    assert_eq!(find_match(&ka), Some((2, "か")));
    let nn: Vec<char> = "nn".chars().collect();
    assert_eq!(find_match(&nn), Some((1, "ん")));
    let kk: Vec<char> = "kk".chars().collect();
    assert_eq!(find_match(&kk), None);
    assert_eq!(find_match(&[]), None);
    assert_eq!(find_match(&['-']), Some((1, "ー")));
}

#[test]
fn table_is_ordered_as_documented() {
    assert_eq!(MAPPING_COUNT, 106);
    assert_eq!(mapping_at(0), ("kya", "きゃ"));
    assert_eq!(mapping_at(24), ("ja", "じゃ"));
    assert_eq!(mapping_at(104), ("n", "ん"));
    assert_eq!(mapping_at(105), ("-", "ー"));
    assert_eq!(mapping_at(106), ("", ""));
    for k in 0..MAPPING_COUNT {
        let (romaji, kana) = mapping_at(k);
        assert!((1..=3).contains(&romaji.chars().count()));
        assert!((1..=2).contains(&kana.chars().count()));
        for j in 0..k {
            let earlier = mapping_at(j).0;
            assert!(!(romaji.starts_with(earlier) && romaji.len() > earlier.len()));
        }
    }
}

#[test]
fn doubling_consonants() {
    for c in "bcdfghjklmpqrstvwxyzBCDNAZ".chars() {
        assert!(is_consonant(c));
    }
    for c in "aiueon-1 @[`{っカ".chars() {
        assert!(!is_consonant(c));
    }
}
