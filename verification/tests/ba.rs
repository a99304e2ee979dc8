use jp_inflections::{Verb, VerbType, Word};

fn make_verb(kana: &str, kanji: Option<&str>, verb_type: VerbType) -> Verb {
    Word::new(kana, kanji)
        .into_verb(verb_type)
        .expect("Verb conversion failed")
}

#[test]
fn ba_ichidan() {
    let verb = make_verb("たべる", Some("食べる"), VerbType::Ichidan);
    let word = verb.ba().expect("Conjugation failed");
    assert_eq!(word.kana, "たべれば");
    assert!(word.kanji.is_some());
    assert_eq!(word.kanji.unwrap(), "食べれば");
}

#[test]
fn ba_godan() {
    let verb = make_verb("まもる", Some("守る"), VerbType::Godan);
    let word = verb.ba().expect("Conjugation failed");
    assert_eq!(word.kana, "まもれば");
    assert!(word.kanji.is_some());
    assert_eq!(word.kanji.unwrap(), "守れば");

    let verb = make_verb("いく", Some("行く"), VerbType::Exception);
    let word = verb.ba().expect("Conjugation failed");
    assert_eq!(word.kana, "いけば");
    assert!(word.kanji.is_some());
    assert_eq!(word.kanji.unwrap(), "行けば");
}

#[test]
fn ba_exceptions() {
    let verb = make_verb("くる", Some("来る"), VerbType::Exception);
    let word = verb.ba().expect("Conjugation failed");
    assert_eq!(word.kana, "くれば");
    assert!(word.kanji.is_some());
    assert_eq!(word.kanji.unwrap(), "来れば");

    let verb = make_verb("する", None, VerbType::Exception);
    let word = verb.ba().expect("Conjugation failed");
    assert_eq!(word.kana, "すれば");

    let verb = make_verb("みみにする", Some("耳にする"), VerbType::Exception);
    let word = verb.ba().expect("Conjugation failed");
    assert_eq!(word.kana, "みみにすれば");
    assert!(word.kanji.is_some());
    assert_eq!(word.kanji.unwrap(), "耳にすれば");
}
