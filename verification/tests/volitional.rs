use jp_inflections::{Verb, VerbType, Word, WordForm};

fn make_verb(kana: &str, kanji: Option<&str>, verb_type: VerbType) -> Verb {
    Word::new(kana, kanji)
        .into_verb(verb_type)
        .expect("Verb conversion failed")
}

#[test]
fn volitional_ichidan() {
    let verb = make_verb("たべる", Some("食べる"), VerbType::Ichidan);
    let word = verb.volitional(WordForm::Short).expect("Conjugation failed");
    assert_eq!(word.kana, "たべよう");
    assert!(word.kanji.is_some());
    assert_eq!(word.kanji.unwrap(), "食べよう");
    let word = verb.volitional(WordForm::Long).expect("Conjugation failed");
    assert_eq!(word.kana, "たべましょう");
    assert!(word.kanji.is_some());
    assert_eq!(word.kanji.unwrap(), "食べましょう");
}

#[test]
fn volitional_godan() {
    let verb = make_verb("まもる", Some("守る"), VerbType::Godan);
    let word = verb.volitional(WordForm::Short).expect("Conjugation failed");
    assert_eq!(word.kana, "まもろう");
    assert!(word.kanji.is_some());
    assert_eq!(word.kanji.unwrap(), "守ろう");
    let word = verb.volitional(WordForm::Long).expect("Conjugation failed");
    assert_eq!(word.kana, "まもりましょう");
    assert!(word.kanji.is_some());
    assert_eq!(word.kanji.unwrap(), "守りましょう");
}

#[test]
fn volitional_exceptions() {
    let verb = make_verb("くる", Some("来る"), VerbType::Exception);
    let word = verb.volitional(WordForm::Short).expect("Conjugation failed");
    assert_eq!(word.kana, "こよう");
    assert!(word.kanji.is_some());
    assert_eq!(word.kanji.unwrap(), "来よう");
    let word = verb.volitional(WordForm::Long).expect("Conjugation failed");
    assert_eq!(word.kana, "きましょう");
    assert!(word.kanji.is_some());
    assert_eq!(word.kanji.unwrap(), "来ましょう");

    let verb = make_verb("する", None, VerbType::Exception);
    let word = verb.volitional(WordForm::Short).expect("Conjugation failed");
    assert_eq!(word.kana, "しよう");
    let word = verb.volitional(WordForm::Long).expect("Conjugation failed");
    assert_eq!(word.kana, "しましょう");

    let verb = make_verb("みみにする", Some("耳にする"), VerbType::Exception);
    let word = verb.volitional(WordForm::Short).expect("Conjugation failed");
    assert_eq!(word.kana, "みみにしよう");
    assert!(word.kanji.is_some());
    assert_eq!(word.kanji.unwrap(), "耳にしよう");
    let word = verb.volitional(WordForm::Long).expect("Conjugation failed");
    assert_eq!(word.kana, "みみにしましょう");
    assert!(word.kanji.is_some());
    assert_eq!(word.kanji.unwrap(), "耳にしましょう");
}
