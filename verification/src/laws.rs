use vstd::prelude::*;

use crate::verb::{
    spec_ba, spec_causative, spec_causative_passive, spec_desiderative, spec_dictionary,
    spec_get_stem, spec_imperative, spec_imperative_negative, spec_negative, spec_negative_ba,
    spec_negative_causative, spec_negative_causative_passive, spec_negative_desiderative,
    spec_negative_past, spec_negative_passive, spec_negative_potential, spec_negative_tara,
    spec_negative_te_form, spec_negative_volitional, spec_past, spec_passive, spec_potential,
    spec_tara, spec_te_form, spec_te_rule, spec_volitional, spec_zu, spec_ba_stem, spec_nai_stem,
    spec_stem_long, spec_stem_potential, spec_volitional_stem, VerbType,
};
use crate::word::{seq_ends_with, spec_ends_with, spec_push, spec_push_str, spec_strip_end, WordView};

verus! {

/// For every ichidan verb in dictionary form, other than the bare ある,
/// the plain negative is exactly the word with its final mora dropped
/// and ない appended — and it therefore ends in ない.
pub proof fn lemma_ichidan_negative(w: WordView)
    requires
        crate::word::spec_is_verb(w),
        w.kana != "ある"@,
    ensures
        spec_negative(w, VerbType::Ichidan, crate::word::WordForm::Short) == Some(
            spec_push_str(spec_strip_end(w, 1), "ない"@),
        ),
        seq_ends_with(
            spec_negative(w, VerbType::Ichidan, crate::word::WordForm::Short)->0.kana,
            "ない"@,
        ),
{
    reveal_strlit("ない");
    let res = spec_push_str(spec_strip_end(w, 1), "ない"@);
    assert(res.kana.subrange(res.kana.len() - 2, res.kana.len() as int) =~= "ない"@);
}

/// For every godan verb other than いらっしゃる, the て form and the
/// plain past are defined on the same words, and the past is exactly the
/// て form with its final mora replaced by た — voiced to だ where the
/// euphonic table voiced the て to で.
pub proof fn lemma_godan_te_past(w: WordView)
    requires
        w.kana != "いらっしゃる"@,
    ensures
        spec_te_form(w, VerbType::Godan) is Some <==> spec_past(
            w,
            VerbType::Godan,
            crate::word::WordForm::Short,
        ) is Some,
        spec_te_form(w, VerbType::Godan) is Some ==> spec_past(
            w,
            VerbType::Godan,
            crate::word::WordForm::Short,
        ) == Some(
            spec_push(
                spec_strip_end(spec_te_form(w, VerbType::Godan)->0, 1),
                if spec_te_form(w, VerbType::Godan)->0.kana.last() == 'で' {
                    'だ'
                } else {
                    'た'
                },
            ),
        ),
{
    let t = VerbType::Godan;
    if spec_te_form(w, t) is Some {
        let te = spec_te_form(w, t)->0;
        assert(spec_past(w, t, crate::word::WordForm::Short)->0 =~~= spec_push(
            spec_strip_end(te, 1),
            if te.kana.last() == 'で' {
                'だ'
            } else {
                'た'
            },
        ));
    }
}

/// The round-trip discipline between the two readings: whenever the
/// input carries a kanji reading, the derived word carries one too, and
/// both readings' lengths changed by the same amount.
pub open spec fn kanji_keeps_pace(w: WordView, r: WordView) -> bool {
    w.kanji is Some ==> (r.kanji is Some && r.kana.len() + w.kanji->0.len() == r.kanji->0.len()
        + w.kana.len())
}

/// Every stem of a regular (non-exception) verb with a kanji reading
/// keeps the two readings in lockstep.
pub proof fn lemma_regular_stems_keep_pace(w: WordView, t: VerbType)
    requires
        t != VerbType::Exception,
        w.kana.len() >= 1,
        w.kanji is Some ==> w.kanji->0.len() >= 1,
    ensures
        spec_nai_stem(w, t) is Some ==> kanji_keeps_pace(w, spec_nai_stem(w, t)->0),
        spec_stem_long(w, t) is Some ==> kanji_keeps_pace(w, spec_stem_long(w, t)->0),
        spec_stem_potential(w, t) is Some ==> kanji_keeps_pace(w, spec_stem_potential(w, t)->0),
        spec_ba_stem(w, t) is Some ==> kanji_keeps_pace(w, spec_ba_stem(w, t)->0),
        spec_volitional_stem(w, t) is Some ==> kanji_keeps_pace(w, spec_volitional_stem(w, t)->0),
{
}

/// The te rule applied to a regular (non-exception) verb with a kanji
/// reading keeps the two readings in lockstep, as long as neither
/// lexical te override (行く, ある) fires.
pub proof fn lemma_regular_te_keeps_pace(w: WordView, t: VerbType, c: char)
    requires
        t != VerbType::Exception,
        w.kana.len() >= 1,
        w.kanji is Some ==> w.kanji->0.len() >= 1,
        !spec_ends_with(w, "いく"@, Some("行く"@)),
        !spec_ends_with(w, "ある"@, None),
    ensures
        spec_te_rule(w, t, c) is Some ==> kanji_keeps_pace(w, spec_te_rule(w, t, c)->0),
{
}

/// Round trip of the dual reading: on a regular (non-exception) verb
/// with a kanji reading, every derived form that succeeds strips and
/// appends the two readings in lockstep, so their lengths shift by the
/// same amount. The lexical overrides (行く, ある, いらっしゃる and
/// suru-type words), which substitute a fixed kanji, are excluded.
#[verifier::rlimit(60)]
pub proof fn lemma_regular_forms_keep_pace(w: WordView, t: VerbType, form: crate::word::WordForm)
    requires
        t != VerbType::Exception,
        w.kana.len() >= 1,
        w.kanji is Some ==> w.kanji->0.len() >= 1,
        !spec_ends_with(w, "いく"@, Some("行く"@)),
        !spec_ends_with(w, "ある"@, None),
        !seq_ends_with(w.kana, "する"@),
        w.kana != "いらっしゃる"@,
    ensures
        spec_get_stem(w, t, form) is Some ==> kanji_keeps_pace(w, spec_get_stem(w, t, form)->0),
        spec_dictionary(w, t, form) is Some ==> kanji_keeps_pace(w, spec_dictionary(w, t, form)->0),
        spec_negative(w, t, form) is Some ==> kanji_keeps_pace(w, spec_negative(w, t, form)->0),
        spec_te_form(w, t) is Some ==> kanji_keeps_pace(w, spec_te_form(w, t)->0),
        spec_negative_te_form(w, t) is Some ==> kanji_keeps_pace(w, spec_negative_te_form(w, t)->0),
        spec_past(w, t, form) is Some ==> kanji_keeps_pace(w, spec_past(w, t, form)->0),
        spec_negative_past(w, t, form) is Some ==> kanji_keeps_pace(
            w,
            spec_negative_past(w, t, form)->0,
        ),
        spec_potential(w, t, form) is Some ==> kanji_keeps_pace(w, spec_potential(w, t, form)->0),
        spec_negative_potential(w, t, form) is Some ==> kanji_keeps_pace(
            w,
            spec_negative_potential(w, t, form)->0,
        ),
        spec_imperative(w, t) is Some ==> kanji_keeps_pace(w, spec_imperative(w, t)->0),
        spec_imperative_negative(w) is Some ==> kanji_keeps_pace(w, spec_imperative_negative(w)->0),
        spec_causative(w, t) is Some ==> kanji_keeps_pace(w, spec_causative(w, t)->0),
        spec_causative_passive(w, t) is Some ==> kanji_keeps_pace(w, spec_causative_passive(w, t)->0),
        spec_negative_causative(w, t) is Some ==> kanji_keeps_pace(
            w,
            spec_negative_causative(w, t)->0,
        ),
        spec_negative_causative_passive(w, t) is Some ==> kanji_keeps_pace(
            w,
            spec_negative_causative_passive(w, t)->0,
        ),
        spec_passive(w, t) is Some ==> kanji_keeps_pace(w, spec_passive(w, t)->0),
        spec_negative_passive(w, t) is Some ==> kanji_keeps_pace(w, spec_negative_passive(w, t)->0),
        spec_tara(w, t) is Some ==> kanji_keeps_pace(w, spec_tara(w, t)->0),
        spec_negative_tara(w, t) is Some ==> kanji_keeps_pace(w, spec_negative_tara(w, t)->0),
        spec_ba(w, t) is Some ==> kanji_keeps_pace(w, spec_ba(w, t)->0),
        spec_negative_ba(w, t) is Some ==> kanji_keeps_pace(w, spec_negative_ba(w, t)->0),
        spec_volitional(w, t, form) is Some ==> kanji_keeps_pace(w, spec_volitional(w, t, form)->0),
        spec_negative_volitional(w) is Some ==> kanji_keeps_pace(w, spec_negative_volitional(w)->0),
        spec_zu(w, t) is Some ==> kanji_keeps_pace(w, spec_zu(w, t)->0),
        spec_desiderative(w, t) is Some ==> kanji_keeps_pace(w, spec_desiderative(w, t)->0),
        spec_negative_desiderative(w, t) is Some ==> kanji_keeps_pace(
            w,
            spec_negative_desiderative(w, t)->0,
        ),
{
    lemma_regular_stems_keep_pace(w, t);
    lemma_regular_te_keeps_pace(w, t, 'て');
    lemma_regular_te_keeps_pace(w, t, 'た');
    reveal_strlit("ない");
    reveal_strlit("ます");
    reveal_strlit("せる");
    reveal_strlit("れる");
    reveal_strlit("される");
    reveal_strlit("させる");
    reveal_strlit("させられる");
    reveal_strlit("られ");
    if w.kana == "ある"@ {
        assert(w.kana.subrange(0, w.kana.len() as int) =~= "ある"@);
    }
    if w.kana == "する"@ {
        assert(w.kana.subrange(0, w.kana.len() as int) =~= "する"@);
    }
}

} // verus!
