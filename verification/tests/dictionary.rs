use jp_inflections::{Verb, VerbType, Word, WordForm};

fn make_verb(kana: &str, kanji: Option<&str>, verb_type: VerbType) -> Verb {
    Word::new(kana, kanji)
        .into_verb(verb_type)
        .expect("Verb conversion failed")
}

#[test]
fn dictionary_ichidan() {
    let verb = make_verb("でかける", Some("出かける"), VerbType::Ichidan);
    let word = verb.dictionary(WordForm::Short).expect("Conjugation failed");
    assert_eq!(word.kana, "でかける");
    assert!(word.kanji.is_some());
    assert_eq!(word.kanji.unwrap(), "出かける");
    let word = verb.dictionary(WordForm::Long).expect("Conjugation failed");
    assert_eq!(word.kana, "でかけます");
    assert!(word.kanji.is_some());
    assert_eq!(word.kanji.unwrap(), "出かけます");
}

#[test]
fn dictionary_godan() {
    let verb = make_verb("ならう", Some("習う"), VerbType::Godan);
    let word = verb.dictionary(WordForm::Short).expect("Conjugation failed");
    assert_eq!(word.kana, "ならう");
    assert!(word.kanji.is_some());
    assert_eq!(word.kanji.unwrap(), "習う");
    let word = verb.dictionary(WordForm::Long).expect("Conjugation failed");
    assert_eq!(word.kana, "ならいます");
    assert!(word.kanji.is_some());
    assert_eq!(word.kanji.unwrap(), "習います");
}

#[test]
fn dictionary_suru() {
    let verb = make_verb("する", None, VerbType::Exception);
    let word = verb.dictionary(WordForm::Short).expect("Conjugation failed");
    assert_eq!(word.kana, "する");
    let word = verb.dictionary(WordForm::Long).expect("Conjugation failed");
    assert_eq!(word.kana, "します");
}

#[test]
fn dictionary_kuru() {
    let verb = make_verb("くる", Some("来る"), VerbType::Exception);
    let word = verb.dictionary(WordForm::Short).expect("Conjugation failed");
    assert_eq!(word.kana, "くる");
    assert!(word.kanji.is_some());
    assert_eq!(word.kanji.unwrap(), "来る");
    let word = verb.dictionary(WordForm::Long).expect("Conjugation failed");
    assert_eq!(word.kana, "きます");
    assert!(word.kanji.is_some());
    assert_eq!(word.kanji.unwrap(), "来ます");
}

#[test]
fn polite_verbs() {
    let verb = make_verb("いらっしゃる", None, VerbType::Exception);
    let word = verb.dictionary(WordForm::Short).expect("Conjugation failed");
    assert_eq!(word.kana, "いらっしゃる");
    let word = verb.dictionary(WordForm::Long).expect("Conjugation failed");
    assert_eq!(word.kana, "いらっしゃいます");

    let verb = make_verb("おっしゃる", Some("仰る"), VerbType::Exception);
    let word = verb.dictionary(WordForm::Short).expect("Conjugation failed");
    assert_eq!(word.kana, "おっしゃる");
    assert!(word.kanji.is_some());
    assert_eq!(word.kanji.unwrap(), "仰る");
    let word = verb.dictionary(WordForm::Long).expect("Conjugation failed");
    assert_eq!(word.kana, "おっしゃいます");
    assert!(word.kanji.is_some());
    assert_eq!(word.kanji.unwrap(), "仰います");

    let verb = make_verb("くださる", Some("下さる"), VerbType::Exception);
    let word = verb.dictionary(WordForm::Short).expect("Conjugation failed");
    assert_eq!(word.kana, "くださる");
    assert!(word.kanji.is_some());
    assert_eq!(word.kanji.unwrap(), "下さる");
    let word = verb.dictionary(WordForm::Long).expect("Conjugation failed");
    assert_eq!(word.kana, "くださいます");
    assert!(word.kanji.is_some());
    assert_eq!(word.kanji.unwrap(), "下さいます");

    let verb = make_verb("ござる", Some("御座る"), VerbType::Exception);
    let word = verb.dictionary(WordForm::Short).expect("Conjugation failed");
    assert_eq!(word.kana, "ござる");
    assert!(word.kanji.is_some());
    assert_eq!(word.kanji.unwrap(), "御座る");
    let word = verb.dictionary(WordForm::Long).expect("Conjugation failed");
    assert_eq!(word.kana, "ございます");
    assert!(word.kanji.is_some());
    assert_eq!(word.kanji.unwrap(), "御座います");

    let verb = make_verb("なさる", Some("為さる"), VerbType::Exception);
    let word = verb.dictionary(WordForm::Short).expect("Conjugation failed");
    assert_eq!(word.kana, "なさる");
    assert!(word.kanji.is_some());
    assert_eq!(word.kanji.unwrap(), "為さる");
    let word = verb.dictionary(WordForm::Long).expect("Conjugation failed");
    assert_eq!(word.kana, "なさいます");
    assert!(word.kanji.is_some());
    assert_eq!(word.kanji.unwrap(), "為さいます");
}
