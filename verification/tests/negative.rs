use jp_inflections::{Verb, VerbType, Word, WordForm};

fn make_verb(kana: &str, kanji: Option<&str>, verb_type: VerbType) -> Verb {
    Word::new(kana, kanji)
        .into_verb(verb_type)
        .expect("Verb conversion failed")
}

#[test]
fn negative_ichidan() {
    let verb = make_verb("たべる", Some("食べる"), VerbType::Ichidan);
    let word = verb.negative(WordForm::Short).expect("Conjugation failed");
    assert_eq!(word.kana, "たべない");
    assert!(word.kanji.is_some());
    assert_eq!(word.kanji.unwrap(), "食べない");
    let word = verb.negative(WordForm::Long).expect("Conjugation failed");
    assert_eq!(word.kana, "たべません");
    assert!(word.kanji.is_some());
    assert_eq!(word.kanji.unwrap(), "食べません");
}

#[test]
fn negative_godan() {
    let verb = make_verb("まもる", Some("守る"), VerbType::Godan);
    let word = verb.negative(WordForm::Short).expect("Conjugation failed");
    assert_eq!(word.kana, "まもらない");
    assert!(word.kanji.is_some());
    assert_eq!(word.kanji.unwrap(), "守らない");
    let word = verb.negative(WordForm::Long).expect("Conjugation failed");
    assert_eq!(word.kana, "まもりません");
    assert!(word.kanji.is_some());
    assert_eq!(word.kanji.unwrap(), "守りません");
}

#[test]
fn negative_exceptions() {
    let verb = make_verb("いく", Some("行く"), VerbType::Exception);
    let word = verb.negative(WordForm::Short).expect("Conjugation failed");
    assert_eq!(word.kana, "いかない");
    assert!(word.kanji.is_some());
    assert_eq!(word.kanji.unwrap(), "行かない");
    let word = verb.negative(WordForm::Long).expect("Conjugation failed");
    assert_eq!(word.kana, "いきません");
    assert!(word.kanji.is_some());
    assert_eq!(word.kanji.unwrap(), "行きません");

    let verb = make_verb("くる", Some("来る"), VerbType::Exception);
    let word = verb.negative(WordForm::Short).expect("Conjugation failed");
    assert_eq!(word.kana, "こない");
    assert!(word.kanji.is_some());
    assert_eq!(word.kanji.unwrap(), "来ない");
    let word = verb.negative(WordForm::Long).expect("Conjugation failed");
    assert_eq!(word.kana, "きません");
    assert!(word.kanji.is_some());
    assert_eq!(word.kanji.unwrap(), "来ません");

    let verb = make_verb("する", None, VerbType::Exception);
    let word = verb.negative(WordForm::Short).expect("Conjugation failed");
    assert_eq!(word.kana, "しない");
    let word = verb.negative(WordForm::Long).expect("Conjugation failed");
    assert_eq!(word.kana, "しません");
}
