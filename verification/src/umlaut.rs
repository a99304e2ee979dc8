use vstd::prelude::*;

verus! {

/// The vowel sound a kana syllable ends with.
#[derive(Debug, Clone, Copy, PartialEq, Eq, Structural)]
pub enum Umlaut {
    A,
    E,
    I,
    O,
    U,
}

} // verus!
