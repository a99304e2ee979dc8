use vstd::prelude::*;

use crate::syllable::{Info, Row};
use crate::umlaut::Umlaut;

verus! {

/// The static hiragana table: which consonant row and vowel each plain
/// hiragana syllable belongs to. A character without an entry is not a
/// dictionary hiragana syllable (it may be a conjugated ending, katakana,
/// kanji, and so on).
pub open spec fn syllable_info(c: char) -> Option<Info> {
    match c {
        'あ' => Some(Info { row: Row::Umlauts, umlaut: Umlaut::A }),
        'え' => Some(Info { row: Row::Umlauts, umlaut: Umlaut::E }),
        'い' => Some(Info { row: Row::Umlauts, umlaut: Umlaut::I }),
        'お' => Some(Info { row: Row::Umlauts, umlaut: Umlaut::O }),
        'う' => Some(Info { row: Row::Umlauts, umlaut: Umlaut::U }),
        'か' => Some(Info { row: Row::K, umlaut: Umlaut::A }),
        'け' => Some(Info { row: Row::K, umlaut: Umlaut::E }),
        'き' => Some(Info { row: Row::K, umlaut: Umlaut::I }),
        'こ' => Some(Info { row: Row::K, umlaut: Umlaut::O }),
        'く' => Some(Info { row: Row::K, umlaut: Umlaut::U }),
        'が' => Some(Info { row: Row::G, umlaut: Umlaut::A }),
        'げ' => Some(Info { row: Row::G, umlaut: Umlaut::E }),
        'ぎ' => Some(Info { row: Row::G, umlaut: Umlaut::I }),
        'ご' => Some(Info { row: Row::G, umlaut: Umlaut::O }),
        'ぐ' => Some(Info { row: Row::G, umlaut: Umlaut::U }),
        'さ' => Some(Info { row: Row::S, umlaut: Umlaut::A }),
        'せ' => Some(Info { row: Row::S, umlaut: Umlaut::E }),
        'し' => Some(Info { row: Row::S, umlaut: Umlaut::I }),
        'そ' => Some(Info { row: Row::S, umlaut: Umlaut::O }),
        'す' => Some(Info { row: Row::S, umlaut: Umlaut::U }),
        'ざ' => Some(Info { row: Row::Z, umlaut: Umlaut::A }),
        'ぜ' => Some(Info { row: Row::Z, umlaut: Umlaut::E }),
        'じ' => Some(Info { row: Row::Z, umlaut: Umlaut::I }),
        'ぞ' => Some(Info { row: Row::Z, umlaut: Umlaut::O }),
        'ず' => Some(Info { row: Row::Z, umlaut: Umlaut::U }),
        'た' => Some(Info { row: Row::T, umlaut: Umlaut::A }),
        'て' => Some(Info { row: Row::T, umlaut: Umlaut::E }),
        'ち' => Some(Info { row: Row::T, umlaut: Umlaut::I }),
        'と' => Some(Info { row: Row::T, umlaut: Umlaut::O }),
        'つ' => Some(Info { row: Row::T, umlaut: Umlaut::U }),
        'だ' => Some(Info { row: Row::D, umlaut: Umlaut::A }),
        'で' => Some(Info { row: Row::D, umlaut: Umlaut::E }),
        'ぢ' => Some(Info { row: Row::D, umlaut: Umlaut::I }),
        'ど' => Some(Info { row: Row::D, umlaut: Umlaut::O }),
        'づ' => Some(Info { row: Row::D, umlaut: Umlaut::U }),
        'な' => Some(Info { row: Row::N, umlaut: Umlaut::A }),
        'ね' => Some(Info { row: Row::N, umlaut: Umlaut::E }),
        'に' => Some(Info { row: Row::N, umlaut: Umlaut::I }),
        'の' => Some(Info { row: Row::N, umlaut: Umlaut::O }),
        'ぬ' => Some(Info { row: Row::N, umlaut: Umlaut::U }),
        'は' => Some(Info { row: Row::H, umlaut: Umlaut::A }),
        'へ' => Some(Info { row: Row::H, umlaut: Umlaut::E }),
        'ひ' => Some(Info { row: Row::H, umlaut: Umlaut::I }),
        'ほ' => Some(Info { row: Row::H, umlaut: Umlaut::O }),
        'ふ' => Some(Info { row: Row::H, umlaut: Umlaut::U }),
        'ば' => Some(Info { row: Row::B, umlaut: Umlaut::A }),
        'べ' => Some(Info { row: Row::B, umlaut: Umlaut::E }),
        'び' => Some(Info { row: Row::B, umlaut: Umlaut::I }),
        'ぼ' => Some(Info { row: Row::B, umlaut: Umlaut::O }),
        'ぶ' => Some(Info { row: Row::B, umlaut: Umlaut::U }),
        'ぱ' => Some(Info { row: Row::P, umlaut: Umlaut::A }),
        'ぺ' => Some(Info { row: Row::P, umlaut: Umlaut::E }),
        'ぴ' => Some(Info { row: Row::P, umlaut: Umlaut::I }),
        'ぽ' => Some(Info { row: Row::P, umlaut: Umlaut::O }),
        'ぷ' => Some(Info { row: Row::P, umlaut: Umlaut::U }),
        'ま' => Some(Info { row: Row::M, umlaut: Umlaut::A }),
        'め' => Some(Info { row: Row::M, umlaut: Umlaut::E }),
        'み' => Some(Info { row: Row::M, umlaut: Umlaut::I }),
        'も' => Some(Info { row: Row::M, umlaut: Umlaut::O }),
        'む' => Some(Info { row: Row::M, umlaut: Umlaut::U }),
        'ら' => Some(Info { row: Row::R, umlaut: Umlaut::A }),
        'れ' => Some(Info { row: Row::R, umlaut: Umlaut::E }),
        'り' => Some(Info { row: Row::R, umlaut: Umlaut::I }),
        'ろ' => Some(Info { row: Row::R, umlaut: Umlaut::O }),
        'る' => Some(Info { row: Row::R, umlaut: Umlaut::U }),
        'や' => Some(Info { row: Row::Y, umlaut: Umlaut::A }),
        'よ' => Some(Info { row: Row::Y, umlaut: Umlaut::O }),
        'ゆ' => Some(Info { row: Row::Y, umlaut: Umlaut::U }),
        'わ' => Some(Info { row: Row::W, umlaut: Umlaut::A }),
        _ => None,
    }
}

/// The voicing (dakuten) map: the ten unvoiced k/s/t/h-row syllables in
/// their five vowels each map to their voiced counterpart; every other
/// character maps to itself.
pub open spec fn dakuten(c: char) -> char {
    match c {
        'た' => 'だ',
        'て' => 'で',
        'ち' => 'ぢ',
        'と' => 'ど',
        'つ' => 'づ',
        'か' => 'が',
        'け' => 'げ',
        'き' => 'ぎ',
        'こ' => 'ご',
        'く' => 'ぐ',
        'は' => 'ば',
        'へ' => 'べ',
        'ひ' => 'び',
        'ほ' => 'ぼ',
        'ふ' => 'ぶ',
        'さ' => 'ざ',
        'せ' => 'ぜ',
        'し' => 'じ',
        'そ' => 'ぞ',
        'す' => 'ず',
        _ => c,
    }
}

} // verus!
