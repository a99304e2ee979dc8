use jp_inflections::{Verb, VerbType, Word};

fn make_verb(kana: &str, kanji: Option<&str>, verb_type: VerbType) -> Verb {
    Word::new(kana, kanji)
        .into_verb(verb_type)
        .expect("Verb conversion failed")
}

#[test]
fn te_ichidan() {
    let verb = make_verb("たべる", Some("食べる"), VerbType::Ichidan);
    let word = verb.te_form().expect("Conjugation failed");
    assert_eq!(word.kana, "たべて");
    assert!(word.kanji.is_some());
    assert_eq!(word.kanji.unwrap(), "食べて");
}

#[test]
fn te_godan_ru() {
    let verb = make_verb("まもる", Some("守る"), VerbType::Godan);
    let word = verb.te_form().expect("Conjugation failed");
    assert_eq!(word.kana, "まもって");
    assert!(word.kanji.is_some());
    assert_eq!(word.kanji.unwrap(), "守って");
}

#[test]
fn te_godan_su() {
    let verb = make_verb("はなす", Some("話す"), VerbType::Godan);
    let word = verb.te_form().expect("Conjugation failed");
    assert_eq!(word.kana, "はなして");
    assert!(word.kanji.is_some());
    assert_eq!(word.kanji.unwrap(), "話して");
}

#[test]
fn te_godan_ku() {
    let verb = make_verb("かく", Some("書く"), VerbType::Godan);
    let word = verb.te_form().expect("Conjugation failed");
    assert_eq!(word.kana, "かいて");
    assert!(word.kanji.is_some());
    assert_eq!(word.kanji.unwrap(), "書いて");
}

#[test]
fn te_godan_gu() {
    let verb = make_verb("およぐ", Some("泳ぐ"), VerbType::Godan);
    let word = verb.te_form().expect("Conjugation failed");
    assert_eq!(word.kana, "およいで");
    assert!(word.kanji.is_some());
    assert_eq!(word.kanji.unwrap(), "泳いで");
}

#[test]
fn te_exceptions() {
    let verb = make_verb("いく", Some("行く"), VerbType::Exception);
    let word = verb.te_form().expect("Conjugation failed");
    assert_eq!(word.kana, "いって");
    assert!(word.kanji.is_some());
    assert_eq!(word.kanji.unwrap(), "行って");

    let verb = make_verb("する", None, VerbType::Exception);
    let word = verb.te_form().expect("Conjugation failed");
    assert_eq!(word.kana, "して");

    let verb = make_verb("みみにする", Some("耳にする"), VerbType::Exception);
    let word = verb.te_form().expect("Conjugation failed");
    assert_eq!(word.kana, "みみにして");
    assert!(word.kanji.is_some());
    assert_eq!(word.kanji.unwrap(), "耳にして");

    let verb = make_verb("くる", Some("来る"), VerbType::Exception);
    let word = verb.te_form().expect("Conjugation failed");
    assert_eq!(word.kana, "きて");
    assert!(word.kanji.is_some());
    assert_eq!(word.kanji.unwrap(), "来て");

    let verb = make_verb("いらっしゃる", None, VerbType::Godan);
    let word = verb.te_form().expect("Conjugation failed");
    assert_eq!(word.kana, "いらして");
}
