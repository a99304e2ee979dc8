use jp_inflections::inflection::Inflection;
use jp_inflections::special_verbs::SpecialKuru;
use jp_inflections::{VerbType, Word, WordForm};

#[test]
fn test_special_kuru() {
    let word_kuru = Word::new("くる", Some("来る"))
        .into_verb(VerbType::Exception)
        .unwrap();

    let past = SpecialKuru::format_verb(&word_kuru.word, Inflection::Past, WordForm::Long).unwrap();
    assert_eq!(past.kana, "きた");
    assert_eq!(past.kanji, Some("来た".to_string()));

    let neg =
        SpecialKuru::format_verb(&word_kuru.word, Inflection::Negative, WordForm::Short).unwrap();
    assert_eq!(neg.kana, "こない");
    assert_eq!(neg.kanji, Some("来ない".to_string()));
}

#[test]
fn test_special_kuru_ending() {
    let word_kuru = Word::new("よせくる", Some("寄せ来る"))
        .into_verb(VerbType::Exception)
        .unwrap();

    let past = SpecialKuru::format_verb(&word_kuru.word, Inflection::Past, WordForm::Long).unwrap();
    assert_eq!(past.kana, "よせきた");
    assert_eq!(past.kanji, Some("寄せ来た".to_string()));

    let neg =
        SpecialKuru::format_verb(&word_kuru.word, Inflection::Negative, WordForm::Short).unwrap();
    assert_eq!(neg.kana, "よせこない");
    assert_eq!(neg.kanji, Some("寄せ来ない".to_string()));
}
