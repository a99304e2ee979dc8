use jp_inflections::{Verb, VerbType, Word};

fn make_verb(kana: &str, kanji: Option<&str>, verb_type: VerbType) -> Verb {
    Word::new(kana, kanji)
        .into_verb(verb_type)
        .expect("Verb conversion failed")
}

#[test]
fn desiderative_ichidan() {
    let verb = make_verb("たべる", Some("食べる"), VerbType::Ichidan);
    let word = verb.desiderative().expect("Conjugation failed");
    assert_eq!(word.kana, "たべたい");
    assert!(word.kanji.is_some());
    assert_eq!(word.kanji.unwrap(), "食べたい");
}

#[test]
fn desiderative_godan() {
    let verb = make_verb("まもる", Some("守る"), VerbType::Godan);
    let word = verb.desiderative().expect("Conjugation failed");
    assert_eq!(word.kana, "まもりたい");
    assert!(word.kanji.is_some());
    assert_eq!(word.kanji.unwrap(), "守りたい");
}
