use jp_inflections::{Verb, VerbType, Word};

fn make_verb(kana: &str, kanji: Option<&str>, verb_type: VerbType) -> Verb {
    Word::new(kana, kanji)
        .into_verb(verb_type)
        .expect("Verb conversion failed")
}

#[test]
fn desiderative_negative_ichidan() {
    let verb = make_verb("たべる", Some("食べる"), VerbType::Ichidan);
    let word = verb.negative_desiderative().expect("Conjugation failed");
    assert_eq!(word.kana, "たべたくない");
    assert!(word.kanji.is_some());
    assert_eq!(word.kanji.unwrap(), "食べたくない");
}

#[test]
fn desiderative_negative_godan() {
    let verb = make_verb("まもる", Some("守る"), VerbType::Godan);
    let word = verb.negative_desiderative().expect("Conjugation failed");
    assert_eq!(word.kana, "まもりたくない");
    assert!(word.kanji.is_some());
    assert_eq!(word.kanji.unwrap(), "守りたくない");
}
