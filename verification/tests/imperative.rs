use jp_inflections::{Verb, VerbType, Word};

fn make_verb(kana: &str, kanji: Option<&str>, verb_type: VerbType) -> Verb {
    Word::new(kana, kanji)
        .into_verb(verb_type)
        .expect("Verb conversion failed")
}

#[test]
fn imperative_ichidan() {
    let verb = make_verb("たべる", Some("食べる"), VerbType::Ichidan);
    let word = verb.imperative().expect("Conjugation failed");
    assert_eq!(word.kana, "たべろ");
    assert!(word.kanji.is_some());
    assert_eq!(word.kanji.unwrap(), "食べろ");
}

#[test]
fn imperative_godan() {
    let verb = make_verb("まもる", Some("守る"), VerbType::Godan);
    let word = verb.imperative().expect("Conjugation failed");
    assert_eq!(word.kana, "まもれ");
    assert!(word.kanji.is_some());
    assert_eq!(word.kanji.unwrap(), "守れ");
}

#[test]
fn imperative_exceptions() {
    let verb = make_verb("くる", Some("来る"), VerbType::Exception);
    let word = verb.imperative().expect("Conjugation failed");
    assert_eq!(word.kana, "こい");
    assert!(word.kanji.is_some());
    assert_eq!(word.kanji.unwrap(), "来い");

    let verb = make_verb("する", None, VerbType::Exception);
    let word = verb.imperative().expect("Conjugation failed");
    assert_eq!(word.kana, "しろ");

    let verb = make_verb("いらっしゃる", None, VerbType::Exception);
    let word = verb.imperative().expect("Conjugation failed");
    assert_eq!(word.kana, "いらっしゃい");
}
