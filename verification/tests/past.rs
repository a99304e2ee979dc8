use jp_inflections::{Verb, VerbType, Word, WordForm};

fn make_verb(kana: &str, kanji: Option<&str>, verb_type: VerbType) -> Verb {
    Word::new(kana, kanji)
        .into_verb(verb_type)
        .expect("Verb conversion failed")
}

#[test]
fn past_ichidan() {
    let verb = make_verb("たべる", Some("食べる"), VerbType::Ichidan);
    let word = verb.past(WordForm::Short).expect("Conjugation failed");
    assert_eq!(word.kana, "たべた");
    assert!(word.kanji.is_some());
    assert_eq!(word.kanji.unwrap(), "食べた");
    let word = verb.past(WordForm::Long).expect("Conjugation failed");
    assert_eq!(word.kana, "たべました");
    assert!(word.kanji.is_some());
    assert_eq!(word.kanji.unwrap(), "食べました");
}

#[test]
fn past_godan() {
    let verb = make_verb("まもる", Some("守る"), VerbType::Godan);
    let word = verb.past(WordForm::Short).expect("Conjugation failed");
    assert_eq!(word.kana, "まもった");
    assert!(word.kanji.is_some());
    assert_eq!(word.kanji.unwrap(), "守った");
    let word = verb.past(WordForm::Long).expect("Conjugation failed");
    assert_eq!(word.kana, "まもりました");
    assert!(word.kanji.is_some());
    assert_eq!(word.kanji.unwrap(), "守りました");
}

#[test]
fn past_exceptions() {
    let verb = make_verb("いく", Some("行く"), VerbType::Exception);
    let word = verb.past(WordForm::Short).expect("Conjugation failed");
    assert_eq!(word.kana, "いった");
    assert!(word.kanji.is_some());
    assert_eq!(word.kanji.unwrap(), "行った");
    let word = verb.past(WordForm::Long).expect("Conjugation failed");
    assert_eq!(word.kana, "いきました");
    assert!(word.kanji.is_some());
    assert_eq!(word.kanji.unwrap(), "行きました");

    let verb = make_verb("くる", Some("来る"), VerbType::Exception);
    let word = verb.past(WordForm::Short).expect("Conjugation failed");
    assert_eq!(word.kana, "きた");
    assert!(word.kanji.is_some());
    assert_eq!(word.kanji.unwrap(), "来た");
    let word = verb.past(WordForm::Long).expect("Conjugation failed");
    assert_eq!(word.kana, "きました");
    assert!(word.kanji.is_some());
    assert_eq!(word.kanji.unwrap(), "来ました");

    let verb = make_verb("する", None, VerbType::Exception);
    let word = verb.past(WordForm::Short).expect("Conjugation failed");
    assert_eq!(word.kana, "した");
    let word = verb.past(WordForm::Long).expect("Conjugation failed");
    assert_eq!(word.kana, "しました");

    let verb = make_verb("いらっしゃる", None, VerbType::Exception);
    let word = verb.past(WordForm::Short).expect("Conjugation failed");
    assert_eq!(word.kana, "いらっしゃった");
    let word = verb.past(WordForm::Long).expect("Conjugation failed");
    assert_eq!(word.kana, "いらっしゃいました");
}
