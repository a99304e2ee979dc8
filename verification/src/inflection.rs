use vstd::prelude::*;

verus! {

/// A tag recording which grammatical operation produced a word.
#[derive(Debug, Clone, Copy, PartialEq, Eq, Structural)]
pub enum Inflection {
    Stem,
    StemPotential,
    StemBa,
    Positive,
    Negative,
    Past,
    Present,
    Polite,
    Te,
    Passive,
    Causative,
    CausativePassive,
    Imperative,
}

} // verus!
