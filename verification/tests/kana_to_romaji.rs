use buchikun::translit::kana_to_romaji::{
    convert_kana_to_romaji, get_combo_romaji, get_single_romaji, is_consonant,
    kana_to_romaji_hepburn, kana_to_romaji_kunrei, resolve_next_romaji, System,
};

#[test]
fn test_hepburn_basic() {
    assert_eq!(kana_to_romaji_hepburn("カタカナ"), "katakana");
    assert_eq!(kana_to_romaji_hepburn("シブヤ"), "shibuya");
}

#[test]
fn test_kunrei_basic() {
    assert_eq!(kana_to_romaji_kunrei("カタカナ"), "katakana");
    assert_eq!(kana_to_romaji_kunrei("シブヤ"), "sibuya");
}

#[test]
fn kana_to_romaji_test_small_tsu() {
    assert_eq!(kana_to_romaji_hepburn("カッパ"), "kappa");
    assert_eq!(kana_to_romaji_hepburn("チケット"), "chiketto");
    // Kunrei
    assert_eq!(kana_to_romaji_kunrei("カッパ"), "kappa");
    assert_eq!(kana_to_romaji_kunrei("チケット"), "tiketto");
}

#[test]
fn test_combo() {
    assert_eq!(kana_to_romaji_hepburn("キャンパス"), "kyanpasu");
    assert_eq!(kana_to_romaji_hepburn("トウキョウ"), "toukyou");

    assert_eq!(kana_to_romaji_kunrei("キャンパス"), "kyanpasu");
    assert_eq!(kana_to_romaji_kunrei("トウキョウ"), "toukyou");

    // Difference
    assert_eq!(kana_to_romaji_hepburn("シャシン"), "shashin");
    assert_eq!(kana_to_romaji_kunrei("シャシン"), "syasin");
}

#[test]
fn test_long_vowel() {
    assert_eq!(kana_to_romaji_hepburn("パーティー"), "pa-ti-");
}

#[test]
fn encode_empty_input_is_empty() {
    assert_eq!(kana_to_romaji_hepburn(""), "");
    assert_eq!(kana_to_romaji_kunrei(""), "");
    assert_eq!(convert_kana_to_romaji("", System::Hepburn), "");
    assert_eq!(convert_kana_to_romaji("", System::Kunrei), "");
}

#[test]
fn encode_by_system_selector() {
    assert_eq!(convert_kana_to_romaji("シブヤ", System::Hepburn), "shibuya");
    assert_eq!(convert_kana_to_romaji("シブヤ", System::Kunrei), "sibuya");
}

#[test]
fn hepburn_doubles_ch_with_t() {
    assert_eq!(kana_to_romaji_hepburn("マッチ"), "matchi");
    assert_eq!(kana_to_romaji_hepburn("マッチャ"), "matcha");
    assert_eq!(kana_to_romaji_hepburn("ッチェ"), "tche");
    // Kunrei has no such exception.
    assert_eq!(kana_to_romaji_kunrei("マッチ"), "matti");
    assert_eq!(kana_to_romaji_kunrei("マッチャ"), "mattya");
}

#[test]
fn small_tsu_looks_through_a_digraph() {
    assert_eq!(kana_to_romaji_hepburn("ラッキョウ"), "rakkyou");
    assert_eq!(kana_to_romaji_hepburn("イッシュン"), "isshun");
    assert_eq!(kana_to_romaji_kunrei("イッシュン"), "issyun");
    assert_eq!(kana_to_romaji_hepburn("マッジャ"), "majja");
}

#[test]
fn small_tsu_before_a_vowel_or_nothing_writes_nothing() {
    assert_eq!(kana_to_romaji_hepburn("アッア"), "aa");
    assert_eq!(kana_to_romaji_hepburn("アッ"), "a");
    assert_eq!(kana_to_romaji_hepburn("ッ"), "");
    assert_eq!(kana_to_romaji_hepburn("ッー"), "-");
    // The next character has no spelling: nothing to double.
    assert_eq!(kana_to_romaji_hepburn("カッxカ"), "kaka");
    // Two in a row: only the second stands in front of a mora.
    assert_eq!(kana_to_romaji_hepburn("カッッパ"), "kappa");
}

#[test]
fn unmapped_characters_are_dropped_by_the_encoder() {
    assert_eq!(kana_to_romaji_hepburn("abc"), "");
    assert_eq!(kana_to_romaji_hepburn("カxタ"), "kata");
    assert_eq!(kana_to_romaji_hepburn("かたかな"), "");
    assert_eq!(kana_to_romaji_hepburn("漢字カナ"), "kana");
    assert_eq!(
        kana_to_romaji_hepburn("カxタ").chars().count(),
        kana_to_romaji_hepburn("カタ").chars().count()
    );
}

#[test]
fn digraph_is_one_unit() {
    assert_eq!(kana_to_romaji_hepburn("キャ"), "kya");
    assert_eq!(kana_to_romaji_hepburn("キヤ"), "kiya");
    assert_eq!(kana_to_romaji_hepburn("ジェット"), "jetto");
    assert_eq!(kana_to_romaji_kunrei("ジェット"), "zyetto");
    assert_eq!(kana_to_romaji_hepburn("ファイル"), "fairu");
    assert_eq!(kana_to_romaji_hepburn("ウィキ"), "wiki");
    // A small kana that pairs with nothing is spelled alone.
    assert_eq!(kana_to_romaji_hepburn("カャ"), "kaya");
}

#[test]
fn systems_differ_on_single_kana() {
    assert_eq!(kana_to_romaji_hepburn("シチツフジヂ"), "shichitsufujiji");
    assert_eq!(kana_to_romaji_kunrei("シチツフジヂ"), "sitituhuzizi");
}

#[test]
fn single_lookup() {
    assert_eq!(get_single_romaji('カ', System::Hepburn), "ka");
    assert_eq!(get_single_romaji('ツ', System::Hepburn), "tsu");
    assert_eq!(get_single_romaji('ツ', System::Kunrei), "tu");
    assert_eq!(get_single_romaji('ン', System::Kunrei), "n");
    assert_eq!(get_single_romaji('ー', System::Hepburn), "-");
    assert_eq!(get_single_romaji('ッ', System::Hepburn), "");
    assert_eq!(get_single_romaji('x', System::Hepburn), "");
}

#[test]
fn combo_lookup() {
    assert_eq!(get_combo_romaji('キ', 'ャ', System::Hepburn), Some("kya"));
    assert_eq!(get_combo_romaji('チ', 'ョ', System::Hepburn), Some("cho"));
    assert_eq!(get_combo_romaji('チ', 'ョ', System::Kunrei), Some("tyo"));
    assert_eq!(get_combo_romaji('キ', 'ヤ', System::Hepburn), None);
    assert_eq!(get_combo_romaji('ャ', 'キ', System::Kunrei), None);
}

#[test]
fn next_mora_lookup() {
    let kyo: Vec<char> = "キョウ".chars().collect();
    assert_eq!(resolve_next_romaji(&kyo, System::Hepburn), ("kyo".to_string(), 2));
    let ka: Vec<char> = "カ".chars().collect();
    assert_eq!(resolve_next_romaji(&ka, System::Hepburn), ("ka".to_string(), 1));
    assert_eq!(resolve_next_romaji(&[], System::Hepburn), (String::new(), 0));
    assert_eq!(resolve_next_romaji(&['x'], System::Kunrei), (String::new(), 1));
}

#[test]
fn consonant_letters() {
    for c in "bcdfghjklmnpqrstvwxyzBKNZ".chars() {
        assert!(is_consonant(c));
    }
    for c in "aiueo-1 @[`{カ".chars() {
        assert!(!is_consonant(c));
    }
}

#[test]
fn encoder_writes_romaji_characters_only() {
    let out = kana_to_romaji_hepburn("パーティーニ イッチャッタ、キョウ！");
    assert_eq!(out, "pa-ti-niitchattakyou");
    assert!(out.chars().all(|c| c.is_ascii_lowercase() || c == '-'));
}
