use vstd::prelude::*;

use crate::inflection::Inflection;
use crate::word::{spec_suffix_replaced, Word, WordForm, WordView};

verus! {

/// The fixed replacement pair (kana, kanji) that the irregular verb kuru
/// substitutes for its dictionary ending in the given grammatical
/// category, or `None` for categories it does not override.
pub open spec fn kuru_replacement(inflection: Inflection, wf: WordForm) -> Option<
    (Seq<char>, Seq<char>),
> {
    match inflection {
        Inflection::Stem => match wf {
            WordForm::Short => Some(("こ"@, "来"@)),
            WordForm::Long => Some(("き"@, "来"@)),
        },
        Inflection::StemPotential => Some(("こられ"@, "来られ"@)),
        Inflection::Te => Some(("きて"@, "来て"@)),
        Inflection::Past => Some(("きた"@, "来た"@)),
        Inflection::Passive => Some(("こられる"@, "来られる"@)),
        Inflection::Causative => Some(("こさせる"@, "来させる"@)),
        Inflection::CausativePassive => Some(("こさせられる"@, "来させられる"@)),
        Inflection::Negative => match wf {
            WordForm::Short => Some(("こない"@, "来ない"@)),
            WordForm::Long => Some(("きません"@, "来ません"@)),
        },
        Inflection::Imperative => Some(("こい"@, "来い"@)),
        _ => None,
    }
}

/// The kuru override applied to a word: the trailing "くる" (and "来る"
/// on the kanji side, when both sides carry one) replaced by the fixed
/// pair for the requested category. `None` when the category has no
/// override or the word does not end in the kuru dictionary form.
pub open spec fn spec_format_kuru(w: WordView, inflection: Inflection, wf: WordForm) -> Option<
    WordView,
> {
    match kuru_replacement(inflection, wf) {
        None => None,
        Some((new_kana, new_kanji)) => spec_suffix_replaced(
            w,
            "くる"@,
            Some("来る"@),
            new_kana,
            Some(new_kanji),
        ),
    }
}

/// The irregular verb kuru (来る), whose stems do not follow the godan
/// row tables.
pub struct SpecialKuru;

impl SpecialKuru {
    /// Applies the kuru override for the given category to a word ending
    /// in the kuru dictionary form, preserving any compound prefix.
    pub fn format_verb(word: &Word, inflection: Inflection, wf: WordForm) -> (r: Option<Word>)
        ensures
            r is Some <==> spec_format_kuru(word@, inflection, wf) is Some,
            r is Some ==> r->0@ == spec_format_kuru(word@, inflection, wf)->0,
    {
        match inflection {
            Inflection::Stem => match wf {
                WordForm::Short => Self::replaced(word, "こ", "来"),
                WordForm::Long => Self::replaced(word, "き", "来"),
            },
            Inflection::StemPotential => Self::replaced(word, "こられ", "来られ"),
            Inflection::Te => Self::replaced(word, "きて", "来て"),
            Inflection::Past => Self::replaced(word, "きた", "来た"),
            Inflection::Passive => Self::replaced(word, "こられる", "来られる"),
            Inflection::Causative => Self::replaced(word, "こさせる", "来させる"),
            Inflection::CausativePassive => Self::replaced(word, "こさせられる", "来させられる"),
            Inflection::Negative => match wf {
                WordForm::Short => Self::replaced(word, "こない", "来ない"),
                WordForm::Long => Self::replaced(word, "きません", "来ません"),
            },
            Inflection::Imperative => Self::replaced(word, "こい", "来い"),
            _ => None,
        }
    }

    /// Swaps the trailing kuru dictionary form for the given pair.
    fn replaced(word: &Word, new_kana: &str, new_kanji: &str) -> (r: Option<Word>)
        ensures
            r is Some <==> spec_suffix_replaced(
                word@,
                "くる"@,
                Some("来る"@),
                new_kana@,
                Some(new_kanji@),
            ) is Some,
            r is Some ==> r->0@ == spec_suffix_replaced(
                word@,
                "くる"@,
                Some("来る"@),
                new_kana@,
                Some(new_kanji@),
            )->0,
    {
        word.new_with_suffix_replaced("くる", Some("来る"), new_kana, Some(new_kanji))
    }
}

} // verus!
