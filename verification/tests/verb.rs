use buchikun::ja::verb::{
    continuative_form, derive_stem, get_irrealis_form, infer_and_derive_stem,
    infer_conjugation_type, ConjugationType, StemForm, VerbError,
};

#[test]
fn test_irrealis() {
    assert_eq!(
        get_irrealis_form("書く", ConjugationType::Godan),
        Ok("書か".to_string())
    );
    assert_eq!(
        get_irrealis_form("泳ぐ", ConjugationType::Godan),
        Ok("泳が".to_string())
    );
    assert_eq!(
        get_irrealis_form("死ぬ", ConjugationType::Godan),
        Ok("死な".to_string())
    );
    assert_eq!(
        get_irrealis_form("遊ぶ", ConjugationType::Godan),
        Ok("遊ば".to_string())
    );
    assert_eq!(
        get_irrealis_form("買う", ConjugationType::Godan),
        Ok("買わ".to_string())
    );
    assert_eq!(
        get_irrealis_form("見る", ConjugationType::KamiIchidan),
        Ok("見".to_string())
    );
    assert_eq!(
        get_irrealis_form("起きる", ConjugationType::KamiIchidan),
        Ok("起き".to_string())
    );
    assert_eq!(
        get_irrealis_form("食べる", ConjugationType::ShimoIchidan),
        Ok("食べ".to_string())
    );
    assert_eq!(
        get_irrealis_form("する", ConjugationType::Sahen),
        Ok("し".to_string())
    );
    assert_eq!(
        get_irrealis_form("勉強する", ConjugationType::Sahen),
        Ok("勉強し".to_string())
    );
    assert_eq!(
        get_irrealis_form("くる", ConjugationType::Kahen),
        Ok("こ".to_string())
    );
    assert_eq!(
        get_irrealis_form("来る", ConjugationType::Kahen),
        Ok("こ".to_string())
    );
}

#[test]
fn test_irrealis_macro() {
    // With the class guessed
    assert_eq!(
        infer_and_derive_stem("書く", StemForm::Irrealis),
        Ok("書か".to_string())
    );
    assert_eq!(
        infer_and_derive_stem("食べる", StemForm::Irrealis),
        Ok("食べ".to_string())
    );
    assert_eq!(
        infer_and_derive_stem("する", StemForm::Irrealis),
        Ok("し".to_string())
    );

    // Explicit type
    assert_eq!(
        get_irrealis_form("書く", ConjugationType::Godan),
        Ok("書か".to_string())
    );
}

#[test]
fn test_irrealis_errors() {
    assert_eq!(
        get_irrealis_form("", ConjugationType::Godan),
        Err(VerbError::NotAVerb)
    );
    // Mismatch ending
    assert_eq!(
        get_irrealis_form("書く", ConjugationType::KamiIchidan),
        Err(VerbError::UnknownConjugation)
    );
}

#[test]
fn test_continuative() {
    assert_eq!(
        continuative_form("書く", ConjugationType::Godan),
        Ok("書き".to_string())
    );
    assert_eq!(
        continuative_form("泳ぐ", ConjugationType::Godan),
        Ok("泳ぎ".to_string())
    );
    assert_eq!(
        continuative_form("死ぬ", ConjugationType::Godan),
        Ok("死に".to_string())
    );
    assert_eq!(
        continuative_form("遊ぶ", ConjugationType::Godan),
        Ok("遊び".to_string())
    );
    assert_eq!(
        continuative_form("買う", ConjugationType::Godan),
        Ok("買い".to_string())
    );
    assert_eq!(
        continuative_form("見る", ConjugationType::KamiIchidan),
        Ok("見".to_string())
    );
    assert_eq!(
        continuative_form("起きる", ConjugationType::KamiIchidan),
        Ok("起き".to_string())
    );
    assert_eq!(
        continuative_form("食べる", ConjugationType::ShimoIchidan),
        Ok("食べ".to_string())
    );
    assert_eq!(
        continuative_form("する", ConjugationType::Sahen),
        Ok("し".to_string())
    );
    assert_eq!(
        continuative_form("勉強する", ConjugationType::Sahen),
        Ok("勉強し".to_string())
    );
    assert_eq!(
        continuative_form("くる", ConjugationType::Kahen),
        Ok("き".to_string())
    );
    assert_eq!(
        continuative_form("来る", ConjugationType::Kahen),
        Ok("き".to_string())
    );
}

#[test]
fn test_continuative_macro() {
    assert_eq!(
        infer_and_derive_stem("書く", StemForm::Continuative),
        Ok("書き".to_string())
    );
    assert_eq!(
        infer_and_derive_stem("食べる", StemForm::Continuative),
        Ok("食べ".to_string())
    );
    assert_eq!(
        infer_and_derive_stem("する", StemForm::Continuative),
        Ok("し".to_string())
    );
}

#[test]
fn test_godan_basic() {
    assert_eq!(infer_conjugation_type("書く"), Ok(ConjugationType::Godan));
    assert_eq!(infer_conjugation_type("泳ぐ"), Ok(ConjugationType::Godan));
    assert_eq!(infer_conjugation_type("話す"), Ok(ConjugationType::Godan));
    assert_eq!(infer_conjugation_type("待つ"), Ok(ConjugationType::Godan));
    assert_eq!(infer_conjugation_type("死ぬ"), Ok(ConjugationType::Godan));
    assert_eq!(infer_conjugation_type("遊ぶ"), Ok(ConjugationType::Godan));
    assert_eq!(infer_conjugation_type("読む"), Ok(ConjugationType::Godan));
    assert_eq!(infer_conjugation_type("買う"), Ok(ConjugationType::Godan));

    // Godan ending in ru (a/u/o sound)
    assert_eq!(infer_conjugation_type("終わる"), Ok(ConjugationType::Godan));
    assert_eq!(infer_conjugation_type("作る"), Ok(ConjugationType::Godan));
    assert_eq!(infer_conjugation_type("登る"), Ok(ConjugationType::Godan));
}

#[test]
fn test_godan_exceptions() {
    assert_eq!(infer_conjugation_type("走る"), Ok(ConjugationType::Godan));
    assert_eq!(infer_conjugation_type("帰る"), Ok(ConjugationType::Godan));
    assert_eq!(infer_conjugation_type("入る"), Ok(ConjugationType::Godan));
    assert_eq!(infer_conjugation_type("切る"), Ok(ConjugationType::Godan));
    assert_eq!(infer_conjugation_type("知る"), Ok(ConjugationType::Godan));
    assert_eq!(infer_conjugation_type("要る"), Ok(ConjugationType::Godan));
    assert_eq!(infer_conjugation_type("喋る"), Ok(ConjugationType::Godan));
    assert_eq!(infer_conjugation_type("減る"), Ok(ConjugationType::Godan));
}

#[test]
fn test_kamiichidan() {
    // KamiIchidan examples
    let kami_ichidan_verbs = [
        "見る",
        "起きる",
        "落ちる",
        "降りる",
        "借りる",
        "浴びる",
        "閉じる",
        "生きる",
        "尽きる",
        "過ぎる",
        "伸びる",
        "老いる",
        "用いる",
        "朽ちる",
        "満ちる",
    ];
    for v in kami_ichidan_verbs {
        assert_eq!(
            infer_conjugation_type(v),
            Ok(ConjugationType::KamiIchidan),
            "Failed for {}",
            v
        );
    }
}

#[test]
fn test_shimoichidan() {
    let shimo_ichidan_verbs = [
        "出る",
        "寝る",
        "食べる",
        "開ける",
        "閉める",
        "入れる",
        "出かける",
        "上げる",
        "下げる",
        "つける",
        "消える",
        "見せる",
        "教える",
        "覚える",
        "忘れる",
        "考える",
        "伝える",
        "迎える",
        "与える",
        "受ける",
        "避ける",
        "助ける",
        "調べる",
        "比べる",
        "変える",
        "替える",
    ];
    for v in shimo_ichidan_verbs {
        assert_eq!(
            infer_conjugation_type(v),
            Ok(ConjugationType::ShimoIchidan),
            "Failed for {}",
            v
        );
    }
}

#[test]
fn test_irregulars() {
    assert_eq!(infer_conjugation_type("する"), Ok(ConjugationType::Sahen));
    assert_eq!(
        infer_conjugation_type("勉強する"),
        Ok(ConjugationType::Sahen)
    );
    assert_eq!(infer_conjugation_type("くる"), Ok(ConjugationType::Kahen));
    assert_eq!(infer_conjugation_type("来る"), Ok(ConjugationType::Kahen));
}

#[test]
fn test_errors() {
    assert_eq!(infer_conjugation_type(""), Err(VerbError::NotAVerb));
    assert_eq!(infer_conjugation_type("あ"), Err(VerbError::NotAVerb));
    assert_eq!(infer_conjugation_type("リンゴ"), Err(VerbError::NotAVerb));
}

#[test]
fn every_listed_godan_verb_is_godan() {
    let listed = [
        "入る", "要る", "いる", "切る", "千切る", "限る", "かぎる", "握る", "にぎる", "知る",
        "しる", "走る", "はしる", "交じる", "混じる", "まじる", "散る", "ちる", "帰る", "蹴る",
        "ける", "焦る", "あせる", "減る", "へる", "滑る", "すべる", "喋る", "しゃべる",
    ];
    for v in listed {
        assert_eq!(infer_conjugation_type(v), Ok(ConjugationType::Godan), "{}", v);
    }
    // Only the whole word is listed, not what ends in it.
    assert_eq!(
        infer_conjugation_type("見切る"),
        Ok(ConjugationType::Godan)
    );
    assert_eq!(
        infer_conjugation_type("用いる"),
        Ok(ConjugationType::KamiIchidan)
    );
}

#[test]
fn a_bare_ru_is_no_verb() {
    assert_eq!(infer_conjugation_type("る"), Err(VerbError::NotAVerb));
    assert_eq!(
        infer_and_derive_stem("る", StemForm::Irrealis),
        Err(VerbError::NotAVerb)
    );
}

#[test]
fn kuru_is_matched_whole() {
    assert_eq!(infer_conjugation_type("出来る"), Ok(ConjugationType::Godan));
    assert_eq!(
        get_irrealis_form("出来る", ConjugationType::Kahen),
        Err(VerbError::UnknownConjugation)
    );
    assert_eq!(
        continuative_form("もってくる", ConjugationType::Kahen),
        Err(VerbError::UnknownConjugation)
    );
}

#[test]
fn godan_endings_in_both_forms() {
    let cases = [
        ("う", "わ", "い"),
        ("く", "か", "き"),
        ("ぐ", "が", "ぎ"),
        ("す", "さ", "し"),
        ("つ", "た", "ち"),
        ("ぬ", "な", "に"),
        ("ふ", "は", "ひ"),
        ("ぶ", "ば", "び"),
        ("む", "ま", "み"),
        ("る", "ら", "り"),
    ];
    for (last, irrealis, continuative) in cases {
        let verb = format!("語{}", last);
        assert_eq!(
            get_irrealis_form(&verb, ConjugationType::Godan),
            Ok(format!("語{}", irrealis))
        );
        assert_eq!(
            continuative_form(&verb, ConjugationType::Godan),
            Ok(format!("語{}", continuative))
        );
        assert_eq!(
            get_irrealis_form(last, ConjugationType::Godan),
            Ok(irrealis.to_string())
        );
    }
}

#[test]
fn stems_fail_on_a_wrong_ending() {
    assert_eq!(
        get_irrealis_form("書い", ConjugationType::Godan),
        Err(VerbError::UnknownConjugation)
    );
    assert_eq!(
        continuative_form("書く", ConjugationType::ShimoIchidan),
        Err(VerbError::UnknownConjugation)
    );
    assert_eq!(
        continuative_form("書く", ConjugationType::Sahen),
        Err(VerbError::UnknownConjugation)
    );
    assert_eq!(
        get_irrealis_form("する", ConjugationType::Kahen),
        Err(VerbError::UnknownConjugation)
    );
    for conjugation in [
        ConjugationType::Godan,
        ConjugationType::KamiIchidan,
        ConjugationType::ShimoIchidan,
        ConjugationType::Sahen,
        ConjugationType::Kahen,
    ] {
        assert_eq!(continuative_form("", conjugation), Err(VerbError::NotAVerb));
        assert_eq!(get_irrealis_form("", conjugation), Err(VerbError::NotAVerb));
    }
}

#[test]
fn derive_stem_is_what_the_named_forms_call() {
    assert_eq!(
        derive_stem("話す", ConjugationType::Godan, StemForm::Irrealis),
        get_irrealis_form("話す", ConjugationType::Godan)
    );
    assert_eq!(
        derive_stem("話す", ConjugationType::Godan, StemForm::Continuative),
        continuative_form("話す", ConjugationType::Godan)
    );
    assert_eq!(
        derive_stem("話す", ConjugationType::Godan, StemForm::Continuative),
        Ok("話し".to_string())
    );
}

#[test]
fn guess_then_stem_fails_as_the_guess_fails() {
    assert_eq!(
        infer_and_derive_stem("", StemForm::Irrealis),
        Err(VerbError::NotAVerb)
    );
    assert_eq!(
        infer_and_derive_stem("リンゴ", StemForm::Continuative),
        Err(VerbError::NotAVerb)
    );
    let verbs = [
        "書く", "泳ぐ", "話す", "待つ", "死ぬ", "遊ぶ", "読む", "買う", "作る", "走る", "見る",
        "食べる", "勉強する", "する", "くる", "来る",
    ];
    for v in verbs {
        assert!(infer_and_derive_stem(v, StemForm::Irrealis).is_ok(), "{}", v);
        assert!(infer_and_derive_stem(v, StemForm::Continuative).is_ok(), "{}", v);
    }
    assert_eq!(
        infer_and_derive_stem("来る", StemForm::Continuative),
        Ok("き".to_string())
    );
    assert_eq!(
        infer_and_derive_stem("走る", StemForm::Irrealis),
        Ok("走ら".to_string())
    );
}
