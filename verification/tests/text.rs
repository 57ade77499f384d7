use buchikun::text::{ends_with, same_text, starts_with, to_chars, to_text};

#[test]
fn chars_and_text_convert_both_ways() {
    assert_eq!(to_chars("かなa"), vec!['か', 'な', 'a']);
    assert_eq!(to_chars(""), Vec::<char>::new());
    assert_eq!(to_text(&['か', 'な', 'a']), "かなa");
    assert_eq!(to_text(&[]), "");
    assert_eq!(to_text(&to_chars("勉強する")), "勉強する");
}

#[test]
fn prefix_suffix_and_equality() {
    let text = to_chars("勉強する");
    assert!(starts_with(&text, "勉強"));
    assert!(starts_with(&text, ""));
    assert!(starts_with(&text, "勉強する"));
    assert!(!starts_with(&text, "勉強するよ"));
    assert!(!starts_with(&text, "強"));
    assert!(ends_with(&text, "する"));
    assert!(ends_with(&text, ""));
    assert!(ends_with(&text, "勉強する"));
    assert!(!ends_with(&text, "お勉強する"));
    assert!(!ends_with(&text, "す"));
    assert!(same_text(&text, "勉強する"));
    assert!(!same_text(&text, "勉強す"));
    assert!(!same_text(&text, "勉強するよ"));
    assert!(!same_text(&text, "勉強すろ"));
    assert!(same_text(&[], ""));
}
