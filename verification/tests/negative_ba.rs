use jp_inflections::{Verb, VerbType, Word};

fn make_verb(kana: &str, kanji: Option<&str>, verb_type: VerbType) -> Verb {
    Word::new(kana, kanji)
        .into_verb(verb_type)
        .expect("Verb conversion failed")
}

#[test]
fn negative_ba_ichidan() {
    let verb = make_verb("たべる", Some("食べる"), VerbType::Ichidan);
    let word = verb.negative_ba().expect("Conjugation failed");
    assert_eq!(word.kana, "たべなければ");
    assert!(word.kanji.is_some());
    assert_eq!(word.kanji.unwrap(), "食べなければ");
}

#[test]
fn negative_ba_godan() {
    let verb = make_verb("まもる", Some("守る"), VerbType::Godan);
    let word = verb.negative_ba().expect("Conjugation failed");
    assert_eq!(word.kana, "まもらなければ");
    assert!(word.kanji.is_some());
    assert_eq!(word.kanji.unwrap(), "守らなければ");

    let verb = make_verb("いく", Some("行く"), VerbType::Exception);
    let word = verb.negative_ba().expect("Conjugation failed");
    assert_eq!(word.kana, "いかなければ");
    assert!(word.kanji.is_some());
    assert_eq!(word.kanji.unwrap(), "行かなければ");
}

#[test]
fn negative_ba_exceptions() {
    let verb = make_verb("くる", Some("来る"), VerbType::Exception);
    let word = verb.negative_ba().expect("Conjugation failed");
    assert_eq!(word.kana, "こなければ");
    assert!(word.kanji.is_some());
    assert_eq!(word.kanji.unwrap(), "来なければ");

    let verb = make_verb("する", None, VerbType::Exception);
    let word = verb.negative_ba().expect("Conjugation failed");
    assert_eq!(word.kana, "しなければ");

    let verb = make_verb("みみにする", Some("耳にする"), VerbType::Exception);
    let word = verb.negative_ba().expect("Conjugation failed");
    assert_eq!(word.kana, "みみにしなければ");
    assert!(word.kanji.is_some());
    assert_eq!(word.kanji.unwrap(), "耳にしなければ");
}
