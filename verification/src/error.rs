use vstd::prelude::*;

verus! {

/// The two ways a conjugation request can fail.
#[derive(Debug, Clone, Copy, PartialEq, Eq, Structural)]
pub enum Error {
    /// The word does not end in an u-vowel syllable, so it cannot be a
    /// dictionary-form verb.
    NotAVerb,
    /// The word's final syllable has no entry in the stem table that the
    /// requested form needs.
    UnexpectedEnding,
}

} // verus!
