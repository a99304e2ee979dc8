use jp_inflections::{Verb, VerbType, Word};

fn make_verb(kana: &str, kanji: Option<&str>, verb_type: VerbType) -> Verb {
    Word::new(kana, kanji)
        .into_verb(verb_type)
        .expect("Verb conversion failed")
}

#[test]
fn negative_causative_ichidan() {
    let verb = make_verb("たべる", Some("食べる"), VerbType::Ichidan);
    let word = verb.negative_causative().expect("Conjugation failed");
    assert_eq!(word.kana, "たべさせない");
    assert!(word.kanji.is_some());
    assert_eq!(word.kanji.unwrap(), "食べさせない");
}

#[test]
fn negative_causative_godan() {
    let verb = make_verb("まもる", Some("守る"), VerbType::Godan);
    let word = verb.negative_causative().expect("Conjugation failed");
    assert_eq!(word.kana, "まもらせない");
    assert!(word.kanji.is_some());
    assert_eq!(word.kanji.unwrap(), "守らせない");
}

#[test]
fn negative_causative_exceptions() {
    let verb = make_verb("くる", Some("来る"), VerbType::Exception);
    let word = verb.negative_causative().expect("Conjugation failed");
    assert_eq!(word.kana, "こさせない");
    assert!(word.kanji.is_some());
    assert_eq!(word.kanji.unwrap(), "来させない");

    let verb = make_verb("する", None, VerbType::Exception);
    let word = verb.negative_causative().expect("Conjugation failed");
    assert_eq!(word.kana, "させない");

    let verb = make_verb("みみにする", Some("耳にする"), VerbType::Exception);
    let word = verb.negative_causative().expect("Conjugation failed");
    assert_eq!(word.kana, "みみにさせない");
    assert!(word.kanji.is_some());
    assert_eq!(word.kanji.unwrap(), "耳にさせない");
}
