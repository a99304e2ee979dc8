use vstd::prelude::*;

use crate::alphabet;
use crate::umlaut::Umlaut;

verus! {

/// One single syllable within the kana alphabet.
#[derive(Debug, Clone, Copy, PartialEq, Eq, Structural)]
pub struct Syllable(pub char);

/// The classification of a syllable: its consonant row and its vowel.
#[derive(Debug, Clone, Copy, PartialEq, Eq, Structural)]
pub struct Info {
    pub row: Row,
    pub umlaut: Umlaut,
}

/// A kana consonant row.
#[derive(Debug, Clone, Copy, PartialEq, Eq, Structural)]
pub enum Row {
    /// The bare vowels themselves.
    Umlauts,
    /// Reserved for the moraic n; no table entry uses it.
    NSpecial,
    K,
    G,
    S,
    Z,
    T,
    D,
    N,
    H,
    B,
    P,
    M,
    R,
    Y,
    W,
}

impl Syllable {
    /// Wraps a character as a syllable.
    pub fn new(c: char) -> (s: Syllable)
        ensures
            s.spec_char() == c,
    {
        Syllable(c)
    }

    /// The character held by this syllable.
    pub open spec fn spec_char(&self) -> char {
        self.0
    }

    /// Returns the character held by `self`.
    pub fn get_char(&self) -> (c: char)
        ensures
            c == self.spec_char(),
    {
        self.0
    }

    /// Looks the syllable up in the static hiragana table, returning its
    /// row and vowel, or `None` if the character is not a plain hiragana
    /// syllable.
    pub fn get_info(&self) -> (info: Option<Info>)
        ensures
            info == alphabet::syllable_info(self.spec_char()),
    {
        match self.0 {
            'あ' => Some(Info { row: Row::Umlauts, umlaut: Umlaut::A }),
            'え' => Some(Info { row: Row::Umlauts, umlaut: Umlaut::E }),
            'い' => Some(Info { row: Row::Umlauts, umlaut: Umlaut::I }),
            'お' => Some(Info { row: Row::Umlauts, umlaut: Umlaut::O }),
            'う' => Some(Info { row: Row::Umlauts, umlaut: Umlaut::U }),
            'か' => Some(Info { row: Row::K, umlaut: Umlaut::A }),
            'け' => Some(Info { row: Row::K, umlaut: Umlaut::E }),
            'き' => Some(Info { row: Row::K, umlaut: Umlaut::I }),
            'こ' => Some(Info { row: Row::K, umlaut: Umlaut::O }),
            'く' => Some(Info { row: Row::K, umlaut: Umlaut::U }),
            'が' => Some(Info { row: Row::G, umlaut: Umlaut::A }),
            'げ' => Some(Info { row: Row::G, umlaut: Umlaut::E }),
            'ぎ' => Some(Info { row: Row::G, umlaut: Umlaut::I }),
            'ご' => Some(Info { row: Row::G, umlaut: Umlaut::O }),
            'ぐ' => Some(Info { row: Row::G, umlaut: Umlaut::U }),
            'さ' => Some(Info { row: Row::S, umlaut: Umlaut::A }),
            'せ' => Some(Info { row: Row::S, umlaut: Umlaut::E }),
            'し' => Some(Info { row: Row::S, umlaut: Umlaut::I }),
            'そ' => Some(Info { row: Row::S, umlaut: Umlaut::O }),
            'す' => Some(Info { row: Row::S, umlaut: Umlaut::U }),
            'ざ' => Some(Info { row: Row::Z, umlaut: Umlaut::A }),
            'ぜ' => Some(Info { row: Row::Z, umlaut: Umlaut::E }),
            'じ' => Some(Info { row: Row::Z, umlaut: Umlaut::I }),
            'ぞ' => Some(Info { row: Row::Z, umlaut: Umlaut::O }),
            'ず' => Some(Info { row: Row::Z, umlaut: Umlaut::U }),
            'た' => Some(Info { row: Row::T, umlaut: Umlaut::A }),
            'て' => Some(Info { row: Row::T, umlaut: Umlaut::E }),
            'ち' => Some(Info { row: Row::T, umlaut: Umlaut::I }),
            'と' => Some(Info { row: Row::T, umlaut: Umlaut::O }),
            'つ' => Some(Info { row: Row::T, umlaut: Umlaut::U }),
            'だ' => Some(Info { row: Row::D, umlaut: Umlaut::A }),
            'で' => Some(Info { row: Row::D, umlaut: Umlaut::E }),
            'ぢ' => Some(Info { row: Row::D, umlaut: Umlaut::I }),
            'ど' => Some(Info { row: Row::D, umlaut: Umlaut::O }),
            'づ' => Some(Info { row: Row::D, umlaut: Umlaut::U }),
            'な' => Some(Info { row: Row::N, umlaut: Umlaut::A }),
            'ね' => Some(Info { row: Row::N, umlaut: Umlaut::E }),
            'に' => Some(Info { row: Row::N, umlaut: Umlaut::I }),
            'の' => Some(Info { row: Row::N, umlaut: Umlaut::O }),
            'ぬ' => Some(Info { row: Row::N, umlaut: Umlaut::U }),
            'は' => Some(Info { row: Row::H, umlaut: Umlaut::A }),
            'へ' => Some(Info { row: Row::H, umlaut: Umlaut::E }),
            'ひ' => Some(Info { row: Row::H, umlaut: Umlaut::I }),
            'ほ' => Some(Info { row: Row::H, umlaut: Umlaut::O }),
            'ふ' => Some(Info { row: Row::H, umlaut: Umlaut::U }),
            'ば' => Some(Info { row: Row::B, umlaut: Umlaut::A }),
            'べ' => Some(Info { row: Row::B, umlaut: Umlaut::E }),
            'び' => Some(Info { row: Row::B, umlaut: Umlaut::I }),
            'ぼ' => Some(Info { row: Row::B, umlaut: Umlaut::O }),
            'ぶ' => Some(Info { row: Row::B, umlaut: Umlaut::U }),
            'ぱ' => Some(Info { row: Row::P, umlaut: Umlaut::A }),
            'ぺ' => Some(Info { row: Row::P, umlaut: Umlaut::E }),
            'ぴ' => Some(Info { row: Row::P, umlaut: Umlaut::I }),
            'ぽ' => Some(Info { row: Row::P, umlaut: Umlaut::O }),
            'ぷ' => Some(Info { row: Row::P, umlaut: Umlaut::U }),
            'ま' => Some(Info { row: Row::M, umlaut: Umlaut::A }),
            'め' => Some(Info { row: Row::M, umlaut: Umlaut::E }),
            'み' => Some(Info { row: Row::M, umlaut: Umlaut::I }),
            'も' => Some(Info { row: Row::M, umlaut: Umlaut::O }),
            'む' => Some(Info { row: Row::M, umlaut: Umlaut::U }),
            'ら' => Some(Info { row: Row::R, umlaut: Umlaut::A }),
            'れ' => Some(Info { row: Row::R, umlaut: Umlaut::E }),
            'り' => Some(Info { row: Row::R, umlaut: Umlaut::I }),
            'ろ' => Some(Info { row: Row::R, umlaut: Umlaut::O }),
            'る' => Some(Info { row: Row::R, umlaut: Umlaut::U }),
            'や' => Some(Info { row: Row::Y, umlaut: Umlaut::A }),
            'よ' => Some(Info { row: Row::Y, umlaut: Umlaut::O }),
            'ゆ' => Some(Info { row: Row::Y, umlaut: Umlaut::U }),
            'わ' => Some(Info { row: Row::W, umlaut: Umlaut::A }),
            _ => None,
        }
    }

    /// Whether the syllable classifies to the given vowel. A character
    /// outside the hiragana table classifies to no vowel at all.
    pub open spec fn spec_ends_with(&self, u: Umlaut) -> bool {
        match alphabet::syllable_info(self.spec_char()) {
            Some(info) => info.umlaut == u,
            None => false,
        }
    }

    /// Returns `true` if the syllable ends with or equals the given vowel.
    pub fn ends_with(&self, u: Umlaut) -> (r: bool)
        ensures
            r == self.spec_ends_with(u),
    {
        match self.get_info() {
            Some(info) => info.umlaut == u,
            None => false,
        }
    }

    /// Returns the voiced (dakuten) counterpart of the syllable; a syllable
    /// without one is returned unchanged.
    pub fn to_dakuten(&self) -> (s: Syllable)
        ensures
            s.spec_char() == alphabet::dakuten(self.spec_char()),
    {
        match self.0 {
            'た' => Syllable('だ'),
            'て' => Syllable('で'),
            'ち' => Syllable('ぢ'),
            'と' => Syllable('ど'),
            'つ' => Syllable('づ'),
            'か' => Syllable('が'),
            'け' => Syllable('げ'),
            'き' => Syllable('ぎ'),
            'こ' => Syllable('ご'),
            'く' => Syllable('ぐ'),
            'は' => Syllable('ば'),
            'へ' => Syllable('べ'),
            'ひ' => Syllable('び'),
            'ほ' => Syllable('ぼ'),
            'ふ' => Syllable('ぶ'),
            'さ' => Syllable('ざ'),
            'せ' => Syllable('ぜ'),
            'し' => Syllable('じ'),
            'そ' => Syllable('ぞ'),
            'す' => Syllable('ず'),
            _ => *self,
        }
    }

    /// Returns `true` if the syllable is a classified hiragana character,
    /// that is, the table has an entry for it.
    pub fn is_valid(&self) -> (r: bool)
        ensures
            r == (alphabet::syllable_info(self.spec_char()) is Some),
    {
        self.get_info().is_some()
    }
}

} // verus!
