//! A verified conjugation engine for Japanese verbs.
//!
//! A dictionary-form word — a kana reading, an optional kanji reading and
//! a morphological class (godan, ichidan or irregular) — can be derived
//! into the common grammatical forms: negative, past, te-form, potential,
//! passive, causative, imperative, conditional, volitional, desiderative
//! and their combinations, in the plain and the polite register. Every
//! derivation carries a contract that pins the exact readings of the
//! result, including the irregular overrides for suru and kuru compounds
//! and the five honorific verbs.

pub mod alphabet;
pub mod error;
pub mod inflection;
pub mod laws;
pub mod special_verbs;
pub mod syllable;
pub mod umlaut;
pub mod verb;
pub mod word;

pub use verb::Verb;
pub use verb::VerbType;
pub use word::Word;
pub use word::WordForm;

use vstd::prelude::*;

verus! {

pub type JapaneseResult<T> = Result<T, error::Error>;

} // verus!
