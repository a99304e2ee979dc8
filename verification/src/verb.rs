use vstd::prelude::*;

use crate::alphabet;
use crate::error::Error;
use crate::inflection::Inflection;
use crate::special_verbs::{spec_format_kuru, SpecialKuru};
use crate::syllable::Syllable;
use crate::word::{
    seq_ends_with, spec_ends_with, spec_has_reading, spec_push, spec_push_str, spec_strip_end,
    spec_suffix_replaced, str_eq, Word, WordForm, WordView,
};
use crate::JapaneseResult;

verus! {

/// The morphological class of a verb.
#[derive(Debug, Clone, Copy, PartialEq, Eq, Structural)]
pub enum VerbType {
    /// Consonant-stem verbs whose final consonant changes across the five
    /// vowels when conjugating.
    Godan,
    /// Vowel-stem verbs whose stem is invariant; only the final mora is
    /// replaced.
    Ichidan,
    /// Irregular verbs: suru and kuru compounds, and the honorific godan
    /// verbs.
    Exception,
}

/// Represents a Japanese verb: a dictionary-form word together with its
/// morphological class.
#[derive(Debug)]
pub struct Verb {
    pub word: Word,
    pub verb_type: VerbType,
}

/// How a conjugation result relates to its mathematical description: a
/// described word comes back as `Ok` with exactly that value, and a
/// missing description comes back as the unexpected-ending error.
pub open spec fn result_matches(r: JapaneseResult<Word>, expected: Option<WordView>) -> bool {
    match expected {
        Some(v) => r is Ok && r->Ok_0@ == v,
        None => r is Err && r->Err_0 == Error::UnexpectedEnding,
    }
}

/// The per-row stem tables: which character replaces the final syllable
/// of a godan verb when the given stem flavor is derived.
#[derive(Debug, Clone, Copy, PartialEq, Eq, Structural)]
pub enum StemTable {
    /// The nai-stem (a-row) mapping, base of negative, causative, passive.
    NaiA,
    /// The polite-stem (i-row) mapping, base of the -masu forms.
    LongI,
    /// The potential/ba-stem (e-row) mapping.
    PotentialE,
    /// The volitional-stem (o-row) mapping.
    VolitionalO,
    /// The te-form euphonic mapping.
    Te,
}

/// The nine-entry mapping of the given stem table: the characters a
/// godan dictionary form can end in, each sent to its replacement.
pub open spec fn table_map(t: StemTable, c: char) -> Option<char> {
    match t {
        StemTable::NaiA => match c {
            'す' => Some('さ'),
            'く' => Some('か'),
            'ぐ' => Some('が'),
            'む' => Some('ま'),
            'ぶ' => Some('ば'),
            'ぬ' => Some('な'),
            'る' => Some('ら'),
            'う' => Some('わ'),
            'つ' => Some('た'),
            _ => None,
        },
        StemTable::LongI => match c {
            'す' => Some('し'),
            'く' => Some('き'),
            'ぐ' => Some('ぎ'),
            'む' => Some('み'),
            'ぶ' => Some('び'),
            'ぬ' => Some('に'),
            'る' => Some('り'),
            'う' => Some('い'),
            'つ' => Some('ち'),
            _ => None,
        },
        StemTable::PotentialE => match c {
            'す' => Some('せ'),
            'く' => Some('け'),
            'ぐ' => Some('げ'),
            'む' => Some('め'),
            'ぶ' => Some('べ'),
            'ぬ' => Some('ね'),
            'る' => Some('れ'),
            'う' => Some('え'),
            'つ' => Some('て'),
            _ => None,
        },
        StemTable::VolitionalO => match c {
            'す' => Some('そ'),
            'く' => Some('こ'),
            'ぐ' => Some('ご'),
            'む' => Some('も'),
            'ぶ' => Some('ぼ'),
            'ぬ' => Some('の'),
            'る' => Some('ろ'),
            'う' => Some('お'),
            'つ' => Some('と'),
            _ => None,
        },
        StemTable::Te => match c {
            'す' => Some('し'),
            'く' => Some('い'),
            'ぐ' => Some('い'),
            'む' => Some('ん'),
            'ぶ' => Some('ん'),
            'ぬ' => Some('ん'),
            'る' => Some('っ'),
            'う' => Some('っ'),
            'つ' => Some('っ'),
            _ => None,
        },
    }
}

/// Looks the character up in the given stem table.
fn apply_table(t: StemTable, c: char) -> (r: Option<char>)
    ensures
        r == table_map(t, c),
{
    match t {
        StemTable::NaiA => match c {
            'す' => Some('さ'),
            'く' => Some('か'),
            'ぐ' => Some('が'),
            'む' => Some('ま'),
            'ぶ' => Some('ば'),
            'ぬ' => Some('な'),
            'る' => Some('ら'),
            'う' => Some('わ'),
            'つ' => Some('た'),
            _ => None,
        },
        StemTable::LongI => match c {
            'す' => Some('し'),
            'く' => Some('き'),
            'ぐ' => Some('ぎ'),
            'む' => Some('み'),
            'ぶ' => Some('び'),
            'ぬ' => Some('に'),
            'る' => Some('り'),
            'う' => Some('い'),
            'つ' => Some('ち'),
            _ => None,
        },
        StemTable::PotentialE => match c {
            'す' => Some('せ'),
            'く' => Some('け'),
            'ぐ' => Some('げ'),
            'む' => Some('め'),
            'ぶ' => Some('べ'),
            'ぬ' => Some('ね'),
            'る' => Some('れ'),
            'う' => Some('え'),
            'つ' => Some('て'),
            _ => None,
        },
        StemTable::VolitionalO => match c {
            'す' => Some('そ'),
            'く' => Some('こ'),
            'ぐ' => Some('ご'),
            'む' => Some('も'),
            'ぶ' => Some('ぼ'),
            'ぬ' => Some('の'),
            'る' => Some('ろ'),
            'う' => Some('お'),
            'つ' => Some('と'),
            _ => None,
        },
        StemTable::Te => match c {
            'す' => Some('し'),
            'く' => Some('い'),
            'ぐ' => Some('い'),
            'む' => Some('ん'),
            'ぶ' => Some('ん'),
            'ぬ' => Some('ん'),
            'る' => Some('っ'),
            'う' => Some('っ'),
            'つ' => Some('っ'),
            _ => None,
        },
    }
}

/// Substituting the final kana syllable through a stem table: fails when
/// the word is empty or its final syllable has no entry.
pub open spec fn spec_map_ending(w: WordView, t: StemTable) -> Option<WordView> {
    if w.kana.len() == 0 {
        None
    } else {
        match table_map(t, w.kana.last()) {
            Some(d) => Some(spec_push(spec_strip_end(w, 1), d)),
            None => None,
        }
    }
}

/// The stem derivation behind the row mapping: an exception-class word
/// ending in "する" keeps its prefix and takes "し" instead of a table
/// lookup; anything else goes through the table.
pub open spec fn spec_mapped_stem(w: WordView, t: VerbType, table: StemTable) -> Option<WordView> {
    if seq_ends_with(w.kana, "する"@) && t == VerbType::Exception {
        Some(spec_push(spec_strip_end(w, 2), 'し'))
    } else {
        spec_map_ending(w, table)
    }
}

/// The whole-word substitution for suru-type words: the bare word "する"
/// becomes `suffix` with a fresh history, taking the fixed kanji variant
/// `bare_kanji` only when the word itself carries a kanji reading; a
/// compound keeps its prefix (and its own kanji) and swaps its last two
/// characters for `suffix`.
pub open spec fn spec_suru_override(w: WordView, suffix: Seq<char>, bare_kanji: Seq<char>) -> WordView {
    if w.kana == "する"@ {
        WordView {
            kana: suffix,
            kanji: if w.kanji is Some {
                Some(bare_kanji)
            } else {
                None
            },
            infl: Seq::empty(),
        }
    } else {
        spec_push_str(spec_strip_end(w, 2), suffix)
    }
}

/// Whether the word is one of the five honorific godan verbs whose
/// polite stem and imperative end in い.
pub open spec fn spec_is_polite(w: WordView) -> bool {
    w.kana == "いらっしゃる"@ || w.kana == "おっしゃる"@ || w.kana == "くださる"@ || w.kana
        == "ござる"@ || w.kana == "なさる"@
}

/// The nai-stem (a-row stem): base of the negative, causative and
/// passive families.
pub open spec fn spec_nai_stem(w: WordView, t: VerbType) -> Option<WordView> {
    if t == VerbType::Ichidan {
        Some(spec_strip_end(w, 1))
    } else if t == VerbType::Exception && spec_format_kuru(w, Inflection::Stem, WordForm::Short)
        is Some {
        spec_format_kuru(w, Inflection::Stem, WordForm::Short)
    } else if t == VerbType::Exception && seq_ends_with(w.kana, "する"@) {
        Some(spec_suru_override(w, "し"@, "為"@))
    } else {
        spec_mapped_stem(w, t, StemTable::NaiA)
    }
}

/// The long (polite, i-row) stem: base of the -masu family.
pub open spec fn spec_stem_long(w: WordView, t: VerbType) -> Option<WordView> {
    if t == VerbType::Ichidan {
        Some(spec_strip_end(w, 1))
    } else if t == VerbType::Exception && spec_format_kuru(w, Inflection::Stem, WordForm::Long)
        is Some {
        spec_format_kuru(w, Inflection::Stem, WordForm::Long)
    } else if t == VerbType::Exception && seq_ends_with(w.kana, "する"@) {
        Some(spec_suru_override(w, "し"@, "為"@))
    } else if spec_is_polite(w) {
        Some(spec_push_str(spec_strip_end(w, 1), "い"@))
    } else {
        spec_mapped_stem(w, t, StemTable::LongI)
    }
}

/// The potential (e-row) stem: base of the potential forms and the godan
/// imperative.
pub open spec fn spec_stem_potential(w: WordView, t: VerbType) -> Option<WordView> {
    if t == VerbType::Ichidan {
        Some(spec_push_str(spec_strip_end(w, 1), "られ"@))
    } else if t == VerbType::Exception && seq_ends_with(w.kana, "する"@) {
        Some(spec_suru_override(w, "でき"@, "出来"@))
    } else if t == VerbType::Exception && spec_format_kuru(
        w,
        Inflection::StemPotential,
        WordForm::Long,
    ) is Some {
        spec_format_kuru(w, Inflection::StemPotential, WordForm::Long)
    } else {
        spec_mapped_stem(w, t, StemTable::PotentialE)
    }
}

/// The conditional (ba, e-row) stem.
pub open spec fn spec_ba_stem(w: WordView, t: VerbType) -> Option<WordView> {
    if t == VerbType::Ichidan {
        Some(spec_push_str(spec_strip_end(w, 1), "れ"@))
    } else if t == VerbType::Exception && seq_ends_with(w.kana, "する"@) {
        Some(spec_suru_override(w, "すれ"@, "為れ"@))
    } else {
        spec_mapped_stem(w, t, StemTable::PotentialE)
    }
}

/// The volitional (o-row) stem. A kuru-type word keeps its compound
/// prefix: the trailing くる/来る is replaced by こよ/来よ, exactly as
/// the kuru overrides of the other categories do.
pub open spec fn spec_volitional_stem(w: WordView, t: VerbType) -> Option<WordView> {
    if t == VerbType::Exception && seq_ends_with(w.kana, "する"@) {
        Some(spec_suru_override(w, "しよ"@, "為よ"@))
    } else if t == VerbType::Exception && spec_suffix_replaced(
        w,
        "くる"@,
        Some("来る"@),
        "こよ"@,
        Some("来よ"@),
    ) is Some {
        spec_suffix_replaced(w, "くる"@, Some("来る"@), "こよ"@, Some("来よ"@))
    } else if t == VerbType::Ichidan {
        Some(spec_push_str(spec_strip_end(w, 1), "よ"@))
    } else {
        spec_mapped_stem(w, t, StemTable::VolitionalO)
    }
}

/// Whether a final godan syllable voices the appended て/た of the
/// te-form family.
pub open spec fn voices_te(c: char) -> bool {
    c == 'ぐ' || c == 'む' || c == 'ぶ' || c == 'ぬ'
}

/// The godan te-form euphonic change: the final syllable goes through
/// the te table, and the appended mora is voiced after ぐ, む, ぶ, ぬ.
pub open spec fn spec_te_godan(w: WordView, c: char) -> Option<WordView> {
    if w.kana.len() == 0 {
        None
    } else {
        match table_map(StemTable::Te, w.kana.last()) {
            Some(d) => {
                let appended = if voices_te(w.kana.last()) {
                    alphabet::dakuten(c)
                } else {
                    c
                };
                Some(spec_push(spec_push(spec_strip_end(w, 1), d), appended))
            },
            None => None,
        }
    }
}

/// The te rule, shared by the te-form (`c` = て) and the plain past
/// (`c` = た): lexical overrides for 行く and ある, the suru and kuru
/// overrides for exception verbs, plain mora replacement for ichidan
/// verbs, and the euphonic table for everything else.
pub open spec fn spec_te_rule(w: WordView, t: VerbType, c: char) -> Option<WordView> {
    if spec_ends_with(w, "いく"@, Some("行く"@)) {
        Some(
            WordView {
                kana: "いっ"@.push(c),
                kanji: Some("行っ"@.push(c)),
                infl: Seq::empty(),
            },
        )
    } else if t == VerbType::Exception && seq_ends_with(w.kana, "する"@) {
        Some(spec_suru_override(w, "し"@.push(c), "為"@.push(c)))
    } else if t == VerbType::Exception && spec_format_kuru(w, Inflection::Te, WordForm::Long)
        is Some {
        let k = spec_format_kuru(w, Inflection::Te, WordForm::Long)->0;
        Some(spec_push(spec_strip_end(k, 1), c))
    } else if spec_ends_with(w, "ある"@, None) {
        Some(WordView { kana: "あっ"@.push(c), kanji: None, infl: Seq::empty() })
    } else if t == VerbType::Ichidan {
        Some(spec_push(spec_strip_end(w, 1), c))
    } else {
        spec_te_godan(w, c)
    }
}

/// Appends a suffix to both readings of a described word, passing a
/// missing description through.
pub open spec fn opt_push_str(o: Option<WordView>, s: Seq<char>) -> Option<WordView> {
    match o {
        Some(v) => Some(spec_push_str(v, s)),
        None => None,
    }
}

/// Appends one character to both readings of a described word, passing a
/// missing description through.
pub open spec fn opt_push(o: Option<WordView>, c: char) -> Option<WordView> {
    match o {
        Some(v) => Some(spec_push(v, c)),
        None => None,
    }
}

/// Strips `n` characters and then appends a suffix, passing a missing
/// description through.
pub open spec fn opt_strip_push_str(o: Option<WordView>, n: nat, s: Seq<char>) -> Option<WordView> {
    match o {
        Some(v) => Some(spec_push_str(spec_strip_end(v, n), s)),
        None => None,
    }
}

/// The stem selected by register: short picks the nai-stem, long the
/// polite stem.
pub open spec fn spec_get_stem(w: WordView, t: VerbType, form: WordForm) -> Option<WordView> {
    match form {
        WordForm::Short => spec_nai_stem(w, t),
        WordForm::Long => spec_stem_long(w, t),
    }
}

/// The dictionary form: the word itself in the short register, the
/// polite stem plus ます in the long one.
pub open spec fn spec_dictionary(w: WordView, t: VerbType, form: WordForm) -> Option<WordView> {
    match form {
        WordForm::Short => Some(w),
        WordForm::Long => opt_push_str(spec_stem_long(w, t), "ます"@),
    }
}

/// The plain negative: ない on the nai-stem, with the lexical exception
/// that ある negates to the bare word ない.
pub open spec fn spec_negative_short(w: WordView, t: VerbType) -> Option<WordView> {
    if w.kana == "ある"@ {
        Some(WordView { kana: "ない"@, kanji: None, infl: Seq::empty() })
    } else {
        opt_push_str(spec_nai_stem(w, t), "ない"@)
    }
}

/// The polite negative: ません on the polite stem.
pub open spec fn spec_negative_long(w: WordView, t: VerbType) -> Option<WordView> {
    opt_push_str(spec_stem_long(w, t), "ません"@)
}

/// The negative of the requested register.
pub open spec fn spec_negative(w: WordView, t: VerbType, form: WordForm) -> Option<WordView> {
    match form {
        WordForm::Short => spec_negative_short(w, t),
        WordForm::Long => spec_negative_long(w, t),
    }
}

/// The て form: いらっしゃる has the wholesale substitution いらして;
/// everything else goes through the te rule with て appended.
pub open spec fn spec_te_form(w: WordView, t: VerbType) -> Option<WordView> {
    if w.kana == "いらっしゃる"@ {
        Some(WordView { kana: "いらして"@, kanji: None, infl: Seq::empty() })
    } else {
        spec_te_rule(w, t, 'て')
    }
}

/// The negative て form: the plain negative with its final い replaced
/// by くて.
pub open spec fn spec_negative_te_form(w: WordView, t: VerbType) -> Option<WordView> {
    opt_strip_push_str(spec_negative_short(w, t), 1, "くて"@)
}

/// The plain past: the te rule with た appended.
pub open spec fn spec_past_short(w: WordView, t: VerbType) -> Option<WordView> {
    spec_te_rule(w, t, 'た')
}

/// The polite past: ました on the polite stem.
pub open spec fn spec_past_long(w: WordView, t: VerbType) -> Option<WordView> {
    opt_push_str(spec_stem_long(w, t), "ました"@)
}

/// The past of the requested register.
pub open spec fn spec_past(w: WordView, t: VerbType, form: WordForm) -> Option<WordView> {
    match form {
        WordForm::Short => spec_past_short(w, t),
        WordForm::Long => spec_past_long(w, t),
    }
}

/// The plain negative past: なかった on the nai-stem, with ある again
/// substituting the bare なかった.
pub open spec fn spec_negative_past_short(w: WordView, t: VerbType) -> Option<WordView> {
    if spec_has_reading(w, "ある"@, None) {
        Some(WordView { kana: "なかった"@, kanji: None, infl: Seq::empty() })
    } else {
        opt_push_str(spec_nai_stem(w, t), "なかった"@)
    }
}

/// The polite negative past: ませんでした on the polite stem.
pub open spec fn spec_negative_past_long(w: WordView, t: VerbType) -> Option<WordView> {
    opt_push_str(spec_stem_long(w, t), "ませんでした"@)
}

/// The negative past of the requested register.
pub open spec fn spec_negative_past(w: WordView, t: VerbType, form: WordForm) -> Option<WordView> {
    match form {
        WordForm::Short => spec_negative_past_short(w, t),
        WordForm::Long => spec_negative_past_long(w, t),
    }
}

/// The potential of the requested register: る or ます on the potential
/// stem.
pub open spec fn spec_potential(w: WordView, t: VerbType, form: WordForm) -> Option<WordView> {
    match form {
        WordForm::Short => opt_push(spec_stem_potential(w, t), 'る'),
        WordForm::Long => opt_push_str(spec_stem_potential(w, t), "ます"@),
    }
}

/// The negative potential of the requested register: ない or ません on
/// the potential stem.
pub open spec fn spec_negative_potential(w: WordView, t: VerbType, form: WordForm) -> Option<
    WordView,
> {
    match form {
        WordForm::Short => opt_push_str(spec_stem_potential(w, t), "ない"@),
        WordForm::Long => opt_push_str(spec_stem_potential(w, t), "ません"@),
    }
}

/// The imperative: ろ for ichidan verbs; the suru and kuru overrides for
/// exception verbs; い for the five honorific verbs; the potential stem
/// (the bare e-row form) for regular godan verbs.
pub open spec fn spec_imperative(w: WordView, t: VerbType) -> Option<WordView> {
    if t == VerbType::Ichidan {
        Some(spec_push_str(spec_strip_end(w, 1), "ろ"@))
    } else if t == VerbType::Exception && seq_ends_with(w.kana, "する"@) {
        Some(spec_suru_override(w, "しろ"@, "為ろ"@))
    } else if t == VerbType::Exception && spec_format_kuru(
        w,
        Inflection::Imperative,
        WordForm::Short,
    ) is Some {
        spec_format_kuru(w, Inflection::Imperative, WordForm::Short)
    } else if spec_is_polite(w) {
        Some(spec_push_str(spec_strip_end(w, 1), "い"@))
    } else {
        spec_stem_potential(w, t)
    }
}

/// The negative imperative: な on the dictionary form. Never fails.
pub open spec fn spec_imperative_negative(w: WordView) -> Option<WordView> {
    Some(spec_push_str(w, "な"@))
}

/// The causative: させる for ichidan verbs and suru-type words (the
/// latter triggered by either reading's suffix), the kuru override, or
/// せる on the nai-stem.
pub open spec fn spec_causative(w: WordView, t: VerbType) -> Option<WordView> {
    if t == VerbType::Ichidan {
        Some(spec_push_str(spec_strip_end(w, 1), "させる"@))
    } else if t == VerbType::Exception && spec_ends_with(w, "する"@, Some("為る"@)) {
        Some(spec_suru_override(w, "させる"@, "為せる"@))
    } else if t == VerbType::Exception && spec_format_kuru(w, Inflection::Causative, WordForm::Long)
        is Some {
        spec_format_kuru(w, Inflection::Causative, WordForm::Long)
    } else {
        opt_push_str(spec_nai_stem(w, t), "せる"@)
    }
}

/// The causative passive: させられる for ichidan verbs and suru-type
/// words, the kuru override, or される on the nai-stem.
pub open spec fn spec_causative_passive(w: WordView, t: VerbType) -> Option<WordView> {
    if t == VerbType::Ichidan {
        Some(spec_push_str(spec_strip_end(w, 1), "させられる"@))
    } else if t == VerbType::Exception && seq_ends_with(w.kana, "する"@) {
        Some(spec_suru_override(w, "させられる"@, "為せられる"@))
    } else if t == VerbType::Exception && spec_format_kuru(
        w,
        Inflection::CausativePassive,
        WordForm::Long,
    ) is Some {
        spec_format_kuru(w, Inflection::CausativePassive, WordForm::Long)
    } else {
        opt_push_str(spec_nai_stem(w, t), "される"@)
    }
}

/// The negative causative: the causative with its final る replaced by
/// ない.
pub open spec fn spec_negative_causative(w: WordView, t: VerbType) -> Option<WordView> {
    opt_strip_push_str(spec_causative(w, t), 1, "ない"@)
}

/// The negative causative passive: the causative passive with its final
/// る replaced by ない.
pub open spec fn spec_negative_causative_passive(w: WordView, t: VerbType) -> Option<WordView> {
    opt_strip_push_str(spec_causative_passive(w, t), 1, "ない"@)
}

/// The passive: the suru and kuru overrides for exception verbs, or the
/// nai-stem plus られる (ichidan) or れる (godan).
pub open spec fn spec_passive(w: WordView, t: VerbType) -> Option<WordView> {
    if t == VerbType::Exception && seq_ends_with(w.kana, "する"@) {
        Some(spec_suru_override(w, "される"@, "為れる"@))
    } else if t == VerbType::Exception && spec_format_kuru(w, Inflection::Passive, WordForm::Long)
        is Some {
        spec_format_kuru(w, Inflection::Passive, WordForm::Long)
    } else {
        match spec_nai_stem(w, t) {
            Some(stem) => Some(
                spec_push_str(
                    if t == VerbType::Ichidan {
                        spec_push(stem, 'ら')
                    } else {
                        stem
                    },
                    "れる"@,
                ),
            ),
            None => None,
        }
    }
}

/// The negative passive: the passive with its final る replaced by ない.
pub open spec fn spec_negative_passive(w: WordView, t: VerbType) -> Option<WordView> {
    opt_strip_push_str(spec_passive(w, t), 1, "ない"@)
}

/// The tara conditional: ら on the plain past.
pub open spec fn spec_tara(w: WordView, t: VerbType) -> Option<WordView> {
    opt_push_str(spec_past_short(w, t), "ら"@)
}

/// The negative tara conditional: ら on the plain negative past.
pub open spec fn spec_negative_tara(w: WordView, t: VerbType) -> Option<WordView> {
    opt_push_str(spec_negative_past_short(w, t), "ら"@)
}

/// The ba conditional: ば on the ba stem.
pub open spec fn spec_ba(w: WordView, t: VerbType) -> Option<WordView> {
    opt_push_str(spec_ba_stem(w, t), "ば"@)
}

/// The negative ba conditional: the plain negative with its final い
/// replaced by ければ.
pub open spec fn spec_negative_ba(w: WordView, t: VerbType) -> Option<WordView> {
    opt_strip_push_str(spec_negative_short(w, t), 1, "ければ"@)
}

/// The plain volitional: う on the volitional stem.
pub open spec fn spec_volitional_short(w: WordView, t: VerbType) -> Option<WordView> {
    opt_push_str(spec_volitional_stem(w, t), "う"@)
}

/// The polite volitional: the polite dictionary form with its final す
/// replaced by しょう.
pub open spec fn spec_volitional_long(w: WordView, t: VerbType) -> Option<WordView> {
    opt_strip_push_str(spec_dictionary(w, t, WordForm::Long), 1, "しょう"@)
}

/// The volitional of the requested register.
pub open spec fn spec_volitional(w: WordView, t: VerbType, form: WordForm) -> Option<WordView> {
    match form {
        WordForm::Short => spec_volitional_short(w, t),
        WordForm::Long => spec_volitional_long(w, t),
    }
}

/// The negative volitional: まい on the dictionary form. Never fails.
pub open spec fn spec_negative_volitional(w: WordView) -> Option<WordView> {
    Some(spec_push_str(w, "まい"@))
}

/// The zu form: suru-type words (of any verb class) swap する for せず;
/// everything else replaces the ない of the plain negative by ず.
pub open spec fn spec_zu(w: WordView, t: VerbType) -> Option<WordView> {
    if seq_ends_with(w.kana, "する"@) {
        Some(spec_suru_override(w, "せず"@, "為ず"@))
    } else {
        opt_strip_push_str(spec_negative_short(w, t), 2, "ず"@)
    }
}

/// The desiderative: たい on the polite stem.
pub open spec fn spec_desiderative(w: WordView, t: VerbType) -> Option<WordView> {
    opt_push_str(spec_stem_long(w, t), "たい"@)
}

/// The negative desiderative: たくない on the polite stem.
pub open spec fn spec_negative_desiderative(w: WordView, t: VerbType) -> Option<WordView> {
    opt_push_str(spec_stem_long(w, t), "たくない"@)
}

/// Builds a fresh word with the given readings and no history.
fn fixed_word(kana: &str, kanji: Option<&str>) -> (w: Word)
    ensures
        w@ == (WordView {
            kana: kana@,
            kanji: crate::word::opt_view(kanji),
            infl: Seq::empty(),
        }),
{
    let w = Word::new(kana, kanji);
    proof {
        assert(w@ =~= (WordView {
            kana: kana@,
            kanji: crate::word::opt_view(kanji),
            infl: Seq::empty(),
        }));
    }
    w
}

impl Verb {
    /// Returns a new verb.
    pub fn new(word: Word, verb_type: VerbType) -> (v: Verb)
        ensures
            v.word@ == word@,
            v.verb_type == verb_type,
    {
        Verb { word, verb_type }
    }

    /// Same as [`Word::get_reading`] on the verb's word.
    pub fn get_reading(&self) -> (r: String)
        ensures
            r@ == (match self.word@.kanji {
                Some(k) => k,
                None => self.word@.kana,
            }),
    {
        self.word.get_reading()
    }

    /// Returns `true` if no inflection has been applied to the word yet.
    pub fn is_dict_form(&self) -> (r: bool)
        ensures
            r == (self.word@.infl.len() == 0),
    {
        self.word.inflections.len() == 0
    }

    /// Grants mutable access to the verb's word.
    pub fn word_mut(&mut self) -> (w: &mut Word)
        ensures
            *w == old(self).word,
            *final(self) == (Verb { word: *final(w), verb_type: old(self).verb_type }),
    {
        &mut self.word
    }

    /// Returns `true` if the verb class is the irregular one.
    fn is_exception(&self) -> (r: bool)
        ensures
            r == (self.verb_type == VerbType::Exception),
    {
        match self.verb_type {
            VerbType::Exception => true,
            _ => false,
        }
    }

    /// Returns `true` if the verb is one of the five honorific verbs.
    fn is_polite(&self) -> (r: bool)
        ensures
            r == spec_is_polite(self.word@),
    {
        if str_eq(self.word.kana.as_str(), "いらっしゃる") {
            return true;
        }
        if str_eq(self.word.kana.as_str(), "おっしゃる") {
            return true;
        }
        if str_eq(self.word.kana.as_str(), "くださる") {
            return true;
        }
        if str_eq(self.word.kana.as_str(), "ござる") {
            return true;
        }
        str_eq(self.word.kana.as_str(), "なさる")
    }

    /// Maps the last syllable of the word through the given stem table.
    fn map_ending(&self, t: StemTable) -> (r: JapaneseResult<Word>)
        ensures
            result_matches(r, spec_map_ending(self.word@, t)),
    {
        match self.word.ending_syllable() {
            None => Err(Error::UnexpectedEnding),
            Some(ending) => match apply_table(t, ending.get_char()) {
                Some(d) => {
                    let mut new_word = self.word.clone().strip_end(1);
                    new_word.push(d);
                    Ok(new_word)
                },
                None => Err(Error::UnexpectedEnding),
            },
        }
    }

    /// Derives a stem through the given table, with the suru shortcut of
    /// [`spec_mapped_stem`].
    fn mapped_stem(&self, t: StemTable) -> (r: JapaneseResult<Word>)
        ensures
            result_matches(r, spec_mapped_stem(self.word@, self.verb_type, t)),
    {
        if self.word.ends_with("する", None) && self.is_exception() {
            let mut prefix = self.word.clone().strip_end(2);
            prefix.push('し');
            return Ok(prefix);
        }
        self.map_ending(t)
    }

    /// Applies the whole-word suru substitution of [`spec_suru_override`].
    fn suru_override(&self, suffix: &str, bare_kanji: &str) -> (w: Word)
        ensures
            w@ == spec_suru_override(self.word@, suffix@, bare_kanji@),
    {
        if str_eq(self.word.kana.as_str(), "する") {
            let w = Word {
                kana: String::from_str(suffix),
                kanji: if self.word.kanji.is_some() {
                    Some(String::from_str(bare_kanji))
                } else {
                    None
                },
                inflections: Vec::new(),
            };
            proof {
                assert(w@ =~= spec_suru_override(self.word@, suffix@, bare_kanji@));
            }
            w
        } else {
            let mut prefix = self.word.clone().strip_end(2);
            prefix.push_str(suffix);
            prefix
        }
    }

    /// Returns the nai-stem of the verb (see [`spec_nai_stem`]).
    fn nai_stem(&self) -> (r: JapaneseResult<Word>)
        ensures
            result_matches(r, spec_nai_stem(self.word@, self.verb_type)),
    {
        if matches!(self.verb_type, VerbType::Ichidan) {
            return Ok(self.word.clone().strip_end(1));
        }
        if self.is_exception() {
            if let Some(kuru) = SpecialKuru::format_verb(
                &self.word,
                Inflection::Stem,
                WordForm::Short,
            ) {
                return Ok(kuru);
            }
            if self.word.ends_with("する", None) {
                return Ok(self.suru_override("し", "為"));
            }
        }
        self.mapped_stem(StemTable::NaiA)
    }

    /// Returns the long (polite) stem of the verb (see [`spec_stem_long`]).
    fn stem_long(&self) -> (r: JapaneseResult<Word>)
        ensures
            result_matches(r, spec_stem_long(self.word@, self.verb_type)),
    {
        if matches!(self.verb_type, VerbType::Ichidan) {
            return Ok(self.word.clone().strip_end(1));
        }
        if self.is_exception() {
            if let Some(kuru) = SpecialKuru::format_verb(
                &self.word,
                Inflection::Stem,
                WordForm::Long,
            ) {
                return Ok(kuru);
            }
            if self.word.ends_with("する", None) {
                return Ok(self.suru_override("し", "為"));
            }
        }
        if self.is_polite() {
            let mut stripped = self.word.clone().strip_end(1);
            stripped.push_str("い");
            return Ok(stripped);
        }
        self.mapped_stem(StemTable::LongI)
    }

    /// Returns the potential stem of the verb (see
    /// [`spec_stem_potential`]).
    fn stem_potential(&self) -> (r: JapaneseResult<Word>)
        ensures
            result_matches(r, spec_stem_potential(self.word@, self.verb_type)),
    {
        if matches!(self.verb_type, VerbType::Ichidan) {
            let mut stripped = self.word.clone().strip_end(1);
            stripped.push_str("られ");
            return Ok(stripped);
        }
        if self.is_exception() {
            if self.word.ends_with("する", None) {
                return Ok(self.suru_override("でき", "出来"));
            }
            if let Some(kuru) = SpecialKuru::format_verb(
                &self.word,
                Inflection::StemPotential,
                WordForm::Long,
            ) {
                return Ok(kuru);
            }
        }
        self.mapped_stem(StemTable::PotentialE)
    }

    /// Returns the ba (conditional) stem of the verb (see
    /// [`spec_ba_stem`]).
    fn ba_stem(&self) -> (r: JapaneseResult<Word>)
        ensures
            result_matches(r, spec_ba_stem(self.word@, self.verb_type)),
    {
        if matches!(self.verb_type, VerbType::Ichidan) {
            let mut stripped = self.word.clone().strip_end(1);
            stripped.push_str("れ");
            return Ok(stripped);
        }
        if self.is_exception() {
            if self.word.ends_with("する", None) {
                return Ok(self.suru_override("すれ", "為れ"));
            }
        }
        self.mapped_stem(StemTable::PotentialE)
    }

    /// Returns the volitional stem of the verb (see
    /// [`spec_volitional_stem`]).
    fn volitional_stem(&self) -> (r: JapaneseResult<Word>)
        ensures
            result_matches(r, spec_volitional_stem(self.word@, self.verb_type)),
    {
        if self.is_exception() {
            if self.word.ends_with("する", None) {
                return Ok(self.suru_override("しよ", "為よ"));
            }
            if let Some(kuru) = self.word.new_with_suffix_replaced(
                "くる",
                Some("来る"),
                "こよ",
                Some("来よ"),
            ) {
                return Ok(kuru);
            }
        }
        if matches!(self.verb_type, VerbType::Ichidan) {
            let mut stripped = self.word.clone().strip_end(1);
            stripped.push_str("よ");
            return Ok(stripped);
        }
        self.mapped_stem(StemTable::VolitionalO)
    }

    /// Applies the te rule for an ichidan verb: drop the final mora and
    /// append the target character.
    fn te_rule_ichidan(&self, to_append: Syllable) -> (w: Word)
        ensures
            w@ == spec_push(spec_strip_end(self.word@, 1), to_append.spec_char()),
    {
        let mut w = self.word.clone().strip_end(1);
        w.push(to_append.get_char());
        w
    }

    /// Applies the te rule for a godan verb (see [`spec_te_godan`]).
    fn te_rule_godan(&self, to_append: Syllable) -> (r: JapaneseResult<Word>)
        ensures
            result_matches(r, spec_te_godan(self.word@, to_append.spec_char())),
    {
        match self.word.ending_syllable() {
            None => Err(Error::UnexpectedEnding),
            Some(ending) => {
                let e = ending.get_char();
                match apply_table(StemTable::Te, e) {
                    None => Err(Error::UnexpectedEnding),
                    Some(d) => {
                        let mut new_word = self.word.clone().strip_end(1);
                        new_word.push(d);
                        let appended = if e == 'ぐ' || e == 'む' || e == 'ぶ' || e == 'ぬ' {
                            to_append.to_dakuten()
                        } else {
                            to_append
                        };
                        new_word.push(appended.get_char());
                        Ok(new_word)
                    },
                }
            },
        }
    }

    /// Conjugates like the て form but with a custom final character
    /// (see [`spec_te_rule`]).
    fn te_rule(&self, to_append: Syllable) -> (r: JapaneseResult<Word>)
        ensures
            result_matches(r, spec_te_rule(self.word@, self.verb_type, to_append.spec_char())),
    {
        let c = to_append.get_char();
        if self.word.ends_with("いく", Some("行く")) {
            let mut kana = String::from_str("いっ");
            crate::word::push_char(&mut kana, c);
            let mut kanji = String::from_str("行っ");
            crate::word::push_char(&mut kanji, c);
            let w = Word { kana, kanji: Some(kanji), inflections: Vec::new() };
            proof {
                assert(w@ =~= (WordView {
                    kana: "いっ"@.push(c),
                    kanji: Some("行っ"@.push(c)),
                    infl: Seq::empty(),
                }));
            }
            return Ok(w);
        }
        if self.is_exception() {
            if self.word.ends_with("する", None) {
                let mut suffix = String::from_str("し");
                crate::word::push_char(&mut suffix, c);
                let mut bare_kanji = String::from_str("為");
                crate::word::push_char(&mut bare_kanji, c);
                return Ok(self.suru_override(suffix.as_str(), bare_kanji.as_str()));
            }
            if let Some(kuru) = SpecialKuru::format_verb(&self.word, Inflection::Te, WordForm::Long) {
                let mut patched = kuru.strip_end(1);
                patched.push(c);
                return Ok(patched);
            }
        }
        if self.word.ends_with("ある", None) {
            let mut kana = String::from_str("あっ");
            crate::word::push_char(&mut kana, c);
            let w = Word { kana, kanji: None, inflections: Vec::new() };
            proof {
                assert(w@ =~= (WordView { kana: "あっ"@.push(c), kanji: None, infl: Seq::empty() }));
            }
            return Ok(w);
        }
        match self.verb_type {
            VerbType::Ichidan => Ok(self.te_rule_ichidan(to_append)),
            VerbType::Godan | VerbType::Exception => self.te_rule_godan(to_append),
        }
    }

    /// Returns the stem of the verb in the requested register.
    pub fn get_stem(&self, form: WordForm) -> (r: JapaneseResult<Word>)
        ensures
            result_matches(r, spec_get_stem(self.word@, self.verb_type, form)),
    {
        match form {
            WordForm::Short => self.nai_stem(),
            WordForm::Long => self.stem_long(),
        }
    }

    /// Returns the dictionary form of the verb in the requested register.
    pub fn dictionary(&self, form: WordForm) -> (r: JapaneseResult<Word>)
        ensures
            result_matches(r, spec_dictionary(self.word@, self.verb_type, form)),
    {
        match form {
            WordForm::Short => Ok(self.word.clone()),
            WordForm::Long => self.dictionary_polite(),
        }
    }

    /// Returns the polite present form of the verb.
    fn dictionary_polite(&self) -> (r: JapaneseResult<Word>)
        ensures
            result_matches(r, spec_dictionary(self.word@, self.verb_type, WordForm::Long)),
    {
        match self.stem_long() {
            Ok(mut stem) => {
                stem.push_str("ます");
                Ok(stem)
            },
            Err(e) => Err(e),
        }
    }

    /// Returns the negative form of the verb in the requested register.
    pub fn negative(&self, form: WordForm) -> (r: JapaneseResult<Word>)
        ensures
            result_matches(r, spec_negative(self.word@, self.verb_type, form)),
    {
        match form {
            WordForm::Short => self.negative_short(),
            WordForm::Long => self.negative_long(),
        }
    }

    /// Returns the word in the plain negative form.
    fn negative_short(&self) -> (r: JapaneseResult<Word>)
        ensures
            result_matches(r, spec_negative_short(self.word@, self.verb_type)),
    {
        if str_eq(self.word.kana.as_str(), "ある") {
            return Ok(fixed_word("ない", None));
        }
        match self.nai_stem() {
            Ok(mut negative) => {
                negative.push_str("ない");
                Ok(negative)
            },
            Err(e) => Err(e),
        }
    }

    /// Returns the word in the polite negative form.
    fn negative_long(&self) -> (r: JapaneseResult<Word>)
        ensures
            result_matches(r, spec_negative_long(self.word@, self.verb_type)),
    {
        match self.stem_long() {
            Ok(mut negative) => {
                negative.push_str("ません");
                Ok(negative)
            },
            Err(e) => Err(e),
        }
    }

    /// Returns the verb in its て form.
    pub fn te_form(&self) -> (r: JapaneseResult<Word>)
        ensures
            result_matches(r, spec_te_form(self.word@, self.verb_type)),
    {
        if str_eq(self.word.kana.as_str(), "いらっしゃる") {
            return Ok(fixed_word("いらして", None));
        }
        self.te_rule(Syllable::new('て'))
    }

    /// Returns the verb in its negative て form.
    pub fn negative_te_form(&self) -> (r: JapaneseResult<Word>)
        ensures
            result_matches(r, spec_negative_te_form(self.word@, self.verb_type)),
    {
        match self.negative_short() {
            Ok(negated) => {
                let mut negated = negated.strip_end(1);
                negated.push_str("くて");
                Ok(negated)
            },
            Err(e) => Err(e),
        }
    }

    /// Returns the verb in the past form of the requested register.
    pub fn past(&self, form: WordForm) -> (r: JapaneseResult<Word>)
        ensures
            result_matches(r, spec_past(self.word@, self.verb_type, form)),
    {
        match form {
            WordForm::Short => self.past_short(),
            WordForm::Long => self.past_long(),
        }
    }

    /// Returns the verb in the plain past form.
    fn past_short(&self) -> (r: JapaneseResult<Word>)
        ensures
            result_matches(r, spec_past_short(self.word@, self.verb_type)),
    {
        self.te_rule(Syllable::new('た'))
    }

    /// Returns the verb in the polite past form.
    fn past_long(&self) -> (r: JapaneseResult<Word>)
        ensures
            result_matches(r, spec_past_long(self.word@, self.verb_type)),
    {
        match self.stem_long() {
            Ok(mut stem) => {
                stem.push_str("ました");
                Ok(stem)
            },
            Err(e) => Err(e),
        }
    }

    /// Returns the verb in the negative past form of the requested
    /// register.
    pub fn negative_past(&self, form: WordForm) -> (r: JapaneseResult<Word>)
        ensures
            result_matches(r, spec_negative_past(self.word@, self.verb_type, form)),
    {
        match form {
            WordForm::Short => self.negative_past_short(),
            WordForm::Long => self.negative_past_long(),
        }
    }

    /// Returns the verb in the plain negative past form.
    fn negative_past_short(&self) -> (r: JapaneseResult<Word>)
        ensures
            result_matches(r, spec_negative_past_short(self.word@, self.verb_type)),
    {
        if self.word.has_reading("ある", None) {
            return Ok(fixed_word("なかった", None));
        }
        match self.nai_stem() {
            Ok(mut negative_past) => {
                negative_past.push_str("なかった");
                Ok(negative_past)
            },
            Err(e) => Err(e),
        }
    }

    /// Returns the verb in the polite negative past form.
    fn negative_past_long(&self) -> (r: JapaneseResult<Word>)
        ensures
            result_matches(r, spec_negative_past_long(self.word@, self.verb_type)),
    {
        match self.stem_long() {
            Ok(mut negative_past) => {
                negative_past.push_str("ませんでした");
                Ok(negative_past)
            },
            Err(e) => Err(e),
        }
    }

    /// Returns the verb in the potential form of the requested register.
    pub fn potential(&self, form: WordForm) -> (r: JapaneseResult<Word>)
        ensures
            result_matches(r, spec_potential(self.word@, self.verb_type, form)),
    {
        match self.stem_potential() {
            Ok(mut stem) => {
                match form {
                    WordForm::Short => stem.push('る'),
                    WordForm::Long => stem.push_str("ます"),
                }
                Ok(stem)
            },
            Err(e) => Err(e),
        }
    }

    /// Returns the verb in the negative potential form of the requested
    /// register.
    pub fn negative_potential(&self, form: WordForm) -> (r: JapaneseResult<Word>)
        ensures
            result_matches(r, spec_negative_potential(self.word@, self.verb_type, form)),
    {
        match self.stem_potential() {
            Ok(mut stem) => {
                match form {
                    WordForm::Short => stem.push_str("ない"),
                    WordForm::Long => stem.push_str("ません"),
                }
                Ok(stem)
            },
            Err(e) => Err(e),
        }
    }

    /// Returns the verb in the imperative form.
    pub fn imperative(&self) -> (r: JapaneseResult<Word>)
        ensures
            result_matches(r, spec_imperative(self.word@, self.verb_type)),
    {
        if matches!(self.verb_type, VerbType::Ichidan) {
            let mut stripped = self.word.clone().strip_end(1);
            stripped.push_str("ろ");
            return Ok(stripped);
        }
        if self.is_exception() {
            if self.word.ends_with("する", None) {
                return Ok(self.suru_override("しろ", "為ろ"));
            }
            if let Some(kuru) = SpecialKuru::format_verb(
                &self.word,
                Inflection::Imperative,
                WordForm::Short,
            ) {
                return Ok(kuru);
            }
        }
        if self.is_polite() {
            let mut stripped = self.word.clone().strip_end(1);
            stripped.push_str("い");
            return Ok(stripped);
        }
        self.stem_potential()
    }

    /// Returns the verb in the negative imperative form.
    pub fn imperative_negative(&self) -> (r: JapaneseResult<Word>)
        ensures
            result_matches(r, spec_imperative_negative(self.word@)),
    {
        let mut word = self.word.clone();
        word.push_str("な");
        Ok(word)
    }

    /// Returns the verb in the causative form.
    pub fn causative(&self) -> (r: JapaneseResult<Word>)
        ensures
            result_matches(r, spec_causative(self.word@, self.verb_type)),
    {
        if matches!(self.verb_type, VerbType::Ichidan) {
            let mut stripped = self.word.clone().strip_end(1);
            stripped.push_str("させる");
            return Ok(stripped);
        }
        if self.is_exception() {
            if self.word.ends_with("する", Some("為る")) {
                return Ok(self.suru_override("させる", "為せる"));
            }
            if let Some(kuru) = SpecialKuru::format_verb(
                &self.word,
                Inflection::Causative,
                WordForm::Long,
            ) {
                return Ok(kuru);
            }
        }
        match self.nai_stem() {
            Ok(mut stem) => {
                stem.push_str("せる");
                Ok(stem)
            },
            Err(e) => Err(e),
        }
    }

    /// Returns the verb in the causative passive form.
    pub fn causative_passive(&self) -> (r: JapaneseResult<Word>)
        ensures
            result_matches(r, spec_causative_passive(self.word@, self.verb_type)),
    {
        if matches!(self.verb_type, VerbType::Ichidan) {
            let mut stripped = self.word.clone().strip_end(1);
            stripped.push_str("させられる");
            return Ok(stripped);
        }
        if self.is_exception() {
            if self.word.ends_with("する", None) {
                return Ok(self.suru_override("させられる", "為せられる"));
            }
            if let Some(kuru) = SpecialKuru::format_verb(
                &self.word,
                Inflection::CausativePassive,
                WordForm::Long,
            ) {
                return Ok(kuru);
            }
        }
        match self.nai_stem() {
            Ok(mut stem) => {
                stem.push_str("される");
                Ok(stem)
            },
            Err(e) => Err(e),
        }
    }

    /// Returns the verb in the negative causative passive form.
    pub fn negative_causative_passive(&self) -> (r: JapaneseResult<Word>)
        ensures
            result_matches(r, spec_negative_causative_passive(self.word@, self.verb_type)),
    {
        match self.causative_passive() {
            Ok(causative_passive) => {
                let mut causative_passive = causative_passive.strip_end(1);
                causative_passive.push_str("ない");
                Ok(causative_passive)
            },
            Err(e) => Err(e),
        }
    }

    /// Returns the verb in the negative causative form.
    pub fn negative_causative(&self) -> (r: JapaneseResult<Word>)
        ensures
            result_matches(r, spec_negative_causative(self.word@, self.verb_type)),
    {
        match self.causative() {
            Ok(causative) => {
                let mut negative_causative = causative.strip_end(1);
                negative_causative.push_str("ない");
                Ok(negative_causative)
            },
            Err(e) => Err(e),
        }
    }

    /// Returns the verb in the passive form.
    pub fn passive(&self) -> (r: JapaneseResult<Word>)
        ensures
            result_matches(r, spec_passive(self.word@, self.verb_type)),
    {
        if self.is_exception() {
            if self.word.ends_with("する", None) {
                return Ok(self.suru_override("される", "為れる"));
            }
            if let Some(kuru) = SpecialKuru::format_verb(
                &self.word,
                Inflection::Passive,
                WordForm::Long,
            ) {
                return Ok(kuru);
            }
        }
        match self.nai_stem() {
            Ok(mut stem) => {
                if matches!(self.verb_type, VerbType::Ichidan) {
                    stem.push('ら');
                }
                stem.push_str("れる");
                Ok(stem)
            },
            Err(e) => Err(e),
        }
    }

    /// Returns the verb in the negative passive form.
    pub fn negative_passive(&self) -> (r: JapaneseResult<Word>)
        ensures
            result_matches(r, spec_negative_passive(self.word@, self.verb_type)),
    {
        match self.passive() {
            Ok(passive) => {
                let mut negative_passive = passive.strip_end(1);
                negative_passive.push_str("ない");
                Ok(negative_passive)
            },
            Err(e) => Err(e),
        }
    }

    /// Returns the verb in the tara form.
    pub fn tara(&self) -> (r: JapaneseResult<Word>)
        ensures
            result_matches(r, spec_tara(self.word@, self.verb_type)),
    {
        match self.past_short() {
            Ok(mut ta_form) => {
                ta_form.push_str("ら");
                Ok(ta_form)
            },
            Err(e) => Err(e),
        }
    }

    /// Returns the verb in the negative tara form.
    pub fn negative_tara(&self) -> (r: JapaneseResult<Word>)
        ensures
            result_matches(r, spec_negative_tara(self.word@, self.verb_type)),
    {
        match self.negative_past_short() {
            Ok(mut ta_form) => {
                ta_form.push_str("ら");
                Ok(ta_form)
            },
            Err(e) => Err(e),
        }
    }

    /// Returns the verb in the ba form.
    pub fn ba(&self) -> (r: JapaneseResult<Word>)
        ensures
            result_matches(r, spec_ba(self.word@, self.verb_type)),
    {
        match self.ba_stem() {
            Ok(mut e_stem) => {
                e_stem.push_str("ば");
                Ok(e_stem)
            },
            Err(e) => Err(e),
        }
    }

    /// Returns the verb in the negative ba form.
    pub fn negative_ba(&self) -> (r: JapaneseResult<Word>)
        ensures
            result_matches(r, spec_negative_ba(self.word@, self.verb_type)),
    {
        match self.negative_short() {
            Ok(negative) => {
                let mut negative = negative.strip_end(1);
                negative.push_str("ければ");
                Ok(negative)
            },
            Err(e) => Err(e),
        }
    }

    /// Returns the verb in the volitional form of the requested register.
    pub fn volitional(&self, form: WordForm) -> (r: JapaneseResult<Word>)
        ensures
            result_matches(r, spec_volitional(self.word@, self.verb_type, form)),
    {
        match form {
            WordForm::Short => self.volitional_short(),
            WordForm::Long => self.volitional_long(),
        }
    }

    /// Returns the verb in the plain volitional form.
    fn volitional_short(&self) -> (r: JapaneseResult<Word>)
        ensures
            result_matches(r, spec_volitional_short(self.word@, self.verb_type)),
    {
        match self.volitional_stem() {
            Ok(mut stem) => {
                stem.push_str("う");
                Ok(stem)
            },
            Err(e) => Err(e),
        }
    }

    /// Returns the verb in the polite volitional form.
    fn volitional_long(&self) -> (r: JapaneseResult<Word>)
        ensures
            result_matches(r, spec_volitional_long(self.word@, self.verb_type)),
    {
        match self.dictionary_polite() {
            Ok(polite) => {
                let mut stem = polite.strip_end(1);
                stem.push_str("しょう");
                Ok(stem)
            },
            Err(e) => Err(e),
        }
    }

    /// Returns the verb in the negative volitional form.
    pub fn negative_volitional(&self) -> (r: JapaneseResult<Word>)
        ensures
            result_matches(r, spec_negative_volitional(self.word@)),
    {
        let mut word = self.word.clone();
        word.push_str("まい");
        Ok(word)
    }

    /// Returns the verb in the zu form.
    pub fn zu(&self) -> (r: JapaneseResult<Word>)
        ensures
            result_matches(r, spec_zu(self.word@, self.verb_type)),
    {
        if self.word.ends_with("する", None) {
            return Ok(self.suru_override("せず", "為ず"));
        }
        match self.negative_short() {
            Ok(negative) => {
                let mut word = negative.strip_end(2);
                word.push_str("ず");
                Ok(word)
            },
            Err(e) => Err(e),
        }
    }

    /// Returns the verb in the desiderative form.
    pub fn desiderative(&self) -> (r: JapaneseResult<Word>)
        ensures
            result_matches(r, spec_desiderative(self.word@, self.verb_type)),
    {
        match self.stem_long() {
            Ok(mut stem) => {
                stem.push_str("たい");
                Ok(stem)
            },
            Err(e) => Err(e),
        }
    }

    /// Returns the verb in the negative desiderative form.
    pub fn negative_desiderative(&self) -> (r: JapaneseResult<Word>)
        ensures
            result_matches(r, spec_negative_desiderative(self.word@, self.verb_type)),
    {
        match self.stem_long() {
            Ok(mut stem) => {
                stem.push_str("たくない");
                Ok(stem)
            },
            Err(e) => Err(e),
        }
    }
}

} // verus!
