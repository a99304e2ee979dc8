use vstd::prelude::*;

use crate::alphabet;
use crate::error::Error;
use crate::inflection::Inflection;
use crate::syllable::Syllable;
use crate::umlaut::Umlaut;
use crate::verb::{Verb, VerbType};
use crate::JapaneseResult;

verus! {

/// The mathematical value of a [`Word`]: both readings as character
/// sequences, plus the inflection tags.
#[verifier::ext_equal]
pub struct WordView {
    pub kana: Seq<char>,
    pub kanji: Option<Seq<char>>,
    pub infl: Seq<Inflection>,
}

/// The register of a conjugated form: plain or polite.
#[derive(Debug, Clone, Copy, PartialEq, Eq, Structural)]
pub enum WordForm {
    Short,
    Long,
}

/// Represents a Japanese word as a kana reading, an optional kanji
/// reading, and the list of inflections applied so far.
#[derive(Debug)]
pub struct Word {
    pub kana: String,
    pub kanji: Option<String>,
    pub inflections: Vec<Inflection>,
}

impl View for Word {
    type V = WordView;

    open spec fn view(&self) -> WordView {
        WordView {
            kana: self.kana@,
            kanji: match self.kanji {
                Some(k) => Some(k@),
                None => None,
            },
            infl: self.inflections@,
        }
    }
}

/// The view of an optional borrowed string.
pub open spec fn opt_view(s: Option<&str>) -> Option<Seq<char>> {
    match s {
        Some(s) => Some(s@),
        None => None,
    }
}

/// Whether `s` ends with `suffix`.
pub open spec fn seq_ends_with(s: Seq<char>, suffix: Seq<char>) -> bool {
    suffix.len() <= s.len() && s.subrange(s.len() - suffix.len(), s.len() as int) == suffix
}

/// `s` without its last `n` characters; the empty sequence when `n`
/// exceeds the length.
pub open spec fn seq_drop_last(s: Seq<char>, n: nat) -> Seq<char> {
    if n >= s.len() {
        Seq::empty()
    } else {
        s.take(s.len() - n)
    }
}

/// Removing the last `n` characters from both readings, keeping the
/// inflections.
pub open spec fn spec_strip_end(w: WordView, n: nat) -> WordView {
    WordView {
        kana: seq_drop_last(w.kana, n),
        kanji: match w.kanji {
            Some(k) => Some(seq_drop_last(k, n)),
            None => None,
        },
        infl: w.infl,
    }
}

/// Appending a string to both readings.
pub open spec fn spec_push_str(w: WordView, s: Seq<char>) -> WordView {
    WordView {
        kana: w.kana + s,
        kanji: match w.kanji {
            Some(k) => Some(k + s),
            None => None,
        },
        infl: w.infl,
    }
}

/// Appending one character to both readings.
pub open spec fn spec_push(w: WordView, c: char) -> WordView {
    WordView {
        kana: w.kana.push(c),
        kanji: match w.kanji {
            Some(k) => Some(k.push(c)),
            None => None,
        },
        infl: w.infl,
    }
}

/// Whether the word has one of the given readings: the kana reading
/// matches exactly, or both the word and the pattern carry a kanji
/// reading and those match. The matching is deliberately asymmetric: a
/// kanji pattern supplied against a word without a kanji reading never
/// matches, even when the kana does.
pub open spec fn spec_has_reading(w: WordView, kana: Seq<char>, kanji: Option<Seq<char>>) -> bool {
    if kanji is Some && w.kanji is None {
        false
    } else {
        w.kana == kana || (w.kanji is Some && kanji is Some && w.kanji->0 == kanji->0)
    }
}

/// Whether the kana reading ends with `kana`, or — when both the word and
/// the pattern carry a kanji side — the kanji reading ends with it.
pub open spec fn spec_ends_with(w: WordView, kana: Seq<char>, kanji: Option<Seq<char>>) -> bool {
    seq_ends_with(w.kana, kana) || (w.kanji is Some && kanji is Some && seq_ends_with(
        w.kanji->0,
        kanji->0,
    ))
}

/// The prefixes left over when the given suffixes are stripped from the
/// two readings. Fails when the kana reading does not end in `kana`, or
/// when a kanji suffix is supplied, the word has a kanji reading, and
/// that reading does not end in it. The kanji side is stripped only when
/// a kanji suffix pattern is given and the word has a kanji reading;
/// otherwise the kanji prefix is absent.
pub open spec fn spec_strip_suffix(w: WordView, kana: Seq<char>, kanji: Option<Seq<char>>) -> Option<
    (Seq<char>, Option<Seq<char>>),
> {
    if !seq_ends_with(w.kana, kana) {
        None
    } else {
        let kana_prefix = w.kana.take(w.kana.len() - kana.len());
        match (kanji, w.kanji) {
            (Some(suffix), Some(reading)) => if seq_ends_with(reading, suffix) {
                Some((kana_prefix, Some(reading.take(reading.len() - suffix.len()))))
            } else {
                None
            },
            _ => Some((kana_prefix, None)),
        }
    }
}

/// The word with the given suffixes replaced by new ones; the result
/// starts a fresh inflection history. The kanji side survives only when
/// both a kanji prefix and a new kanji suffix exist.
pub open spec fn spec_suffix_replaced(
    w: WordView,
    kana_suffix: Seq<char>,
    kanji_suffix: Option<Seq<char>>,
    new_kana_suffix: Seq<char>,
    new_kanji_suffix: Option<Seq<char>>,
) -> Option<WordView> {
    match spec_strip_suffix(w, kana_suffix, kanji_suffix) {
        None => None,
        Some((kana_prefix, kanji_prefix)) => Some(
            WordView {
                kana: kana_prefix + new_kana_suffix,
                kanji: match (kanji_prefix, new_kanji_suffix) {
                    (Some(p), Some(s)) => Some(p + s),
                    _ => None,
                },
                infl: Seq::empty(),
            },
        ),
    }
}

/// Whether the word is a dictionary-form verb: its final kana syllable
/// classifies to the u vowel.
pub open spec fn spec_is_verb(w: WordView) -> bool {
    w.kana.len() > 0 && match alphabet::syllable_info(w.kana.last()) {
        Some(info) => info.umlaut == Umlaut::U,
        None => false,
    }
}

/// Character-by-character string equality.
pub(crate) fn str_eq(a: &str, b: &str) -> (r: bool)
    ensures
        r == (a@ == b@),
{
    let a_len = a.unicode_len();
    let b_len = b.unicode_len();
    if a_len != b_len {
        proof {
            if a@ == b@ {
                assert(a@.len() == b@.len());
            }
        }
        return false;
    }
    let mut i: usize = 0;
    while i < a_len
        invariant
            i <= a_len,
            a_len == a@.len(),
            a_len == b@.len(),
            forall|j: int| 0 <= j < i ==> a@[j] == b@[j],
        decreases a_len - i,
    {
        if a.get_char(i) != b.get_char(i) {
            proof {
                if a@ == b@ {
                    assert(a@[i as int] == b@[i as int]);
                }
            }
            return false;
        }
        i += 1;
    }
    proof {
        assert(a@ =~= b@);
    }
    true
}

/// Character-by-character suffix test.
pub(crate) fn str_ends_with(s: &str, suffix: &str) -> (r: bool)
    ensures
        r == seq_ends_with(s@, suffix@),
{
    let s_len = s.unicode_len();
    let x_len = suffix.unicode_len();
    if x_len > s_len {
        return false;
    }
    let start = s_len - x_len;
    let ghost tail = s@.subrange(s@.len() - suffix@.len(), s@.len() as int);
    let mut i: usize = 0;
    while i < x_len
        invariant
            i <= x_len,
            x_len == suffix@.len(),
            s_len == s@.len(),
            x_len <= s_len,
            start == s_len - x_len,
            tail == s@.subrange(s@.len() - suffix@.len(), s@.len() as int),
            forall|j: int| 0 <= j < i ==> s@[start + j] == suffix@[j],
        decreases x_len - i,
    {
        if s.get_char(start + i) != suffix.get_char(i) {
            proof {
                assert(tail[i as int] == s@[start + i]);
                if tail == suffix@ {
                    assert(tail[i as int] == suffix@[i as int]);
                }
            }
            return false;
        }
        i += 1;
    }
    proof {
        assert(tail =~= suffix@);
    }
    true
}

/// Relies on String::push: appends the given character to the end of the
/// string.
#[verifier::external_body]
pub(crate) fn push_char(s: &mut String, c: char)
    ensures
        final(s)@ == old(s)@.push(c),
{
    s.push(c);
}

/// Copies a list of inflection tags.
fn copy_inflections(v: &Vec<Inflection>) -> (r: Vec<Inflection>)
    ensures
        r@ == v@,
{
    let mut r: Vec<Inflection> = Vec::new();
    let mut i: usize = 0;
    while i < v.len()
        invariant
            i <= v@.len(),
            r@ == v@.take(i as int),
        decreases v@.len() - i,
    {
        r.push(v[i]);
        proof {
            assert(r@ =~= v@.take(i + 1));
        }
        i += 1;
    }
    proof {
        assert(r@ =~= v@);
    }
    r
}

impl Clone for Word {
    /// Copies the word; the copy has the same readings and inflections.
    fn clone(&self) -> (res: Self)
        ensures
            res@ == self@,
    {
        Word {
            kana: self.kana.clone(),
            kanji: match &self.kanji {
                Some(k) => Some(k.clone()),
                None => None,
            },
            inflections: copy_inflections(&self.inflections),
        }
    }
}

impl Word {
    /// Creates a new [`Word`] from a kana and optionally a kanji reading,
    /// both in the dictionary form. No validation happens here.
    pub fn new(kana: &str, kanji: Option<&str>) -> (w: Word)
        ensures
            w@.kana == kana@,
            w@.kanji == opt_view(kanji),
            w@.infl == Seq::<Inflection>::empty(),
    {
        let w = Word {
            kana: kana.to_owned(),
            kanji: match kanji {
                Some(k) => Some(k.to_owned()),
                None => None,
            },
            inflections: Vec::new(),
        };
        proof {
            assert(w@.infl =~= Seq::<Inflection>::empty());
        }
        w
    }

    /// Replaces the kana reading.
    pub fn set_kana(&mut self, kana: String)
        ensures
            final(self)@ == (WordView { kana: kana@, ..old(self)@ }),
    {
        self.kana = kana;
    }

    /// Replaces the kanji reading.
    pub fn set_kanji(&mut self, kanji: Option<String>)
        ensures
            final(self)@ == (WordView {
                kanji: match kanji {
                    Some(k) => Some(k@),
                    None => None,
                },
                ..old(self)@
            }),
    {
        self.kanji = kanji;
    }

    /// Returns `true` if the word is a dictionary-form verb, that is, its
    /// last kana syllable carries the u vowel.
    pub fn is_verb(&self) -> (r: bool)
        ensures
            r == spec_is_verb(self@),
    {
        match self.ending_syllable() {
            Some(s) => s.ends_with(Umlaut::U),
            None => false,
        }
    }

    /// Returns `Ok(())` exactly when the word is a dictionary-form verb,
    /// and `Err(Error::NotAVerb)` otherwise.
    pub fn require_verb(&self) -> (r: JapaneseResult<()>)
        ensures
            spec_is_verb(self@) ==> r is Ok,
            !spec_is_verb(self@) ==> r == JapaneseResult::<()>::Err(Error::NotAVerb),
    {
        if self.is_verb() {
            Ok(())
        } else {
            Err(Error::NotAVerb)
        }
    }

    /// Promotes the word to a verb of the given class. Fails with
    /// `Error::NotAVerb` exactly when the word is not in dictionary form.
    pub fn into_verb(self, verb_type: VerbType) -> (r: JapaneseResult<Verb>)
        ensures
            spec_is_verb(self@) <==> r is Ok,
            r is Ok ==> r->Ok_0.word@ == self@ && r->Ok_0.verb_type == verb_type,
            r is Err ==> r->Err_0 == Error::NotAVerb,
    {
        match self.require_verb() {
            Ok(_) => Ok(Verb::new(self, verb_type)),
            Err(e) => Err(e),
        }
    }

    /// Returns `true` if the word has one of the given readings: the kana
    /// matches, or both the word and the pattern have a kanji reading and
    /// those match. A kanji pattern supplied against a word without a
    /// kanji reading never matches, even when the kana does.
    pub fn has_reading(&self, kana: &str, kanji: Option<&str>) -> (r: bool)
        ensures
            r == spec_has_reading(self@, kana@, opt_view(kanji)),
    {
        if kanji.is_some() && self.kanji.is_none() {
            return false;
        }
        if str_eq(self.kana.as_str(), kana) {
            return true;
        }
        match &self.kanji {
            Some(word_kanji) => match kanji {
                Some(search_kanji) => str_eq(word_kanji.as_str(), search_kanji),
                None => false,
            },
            None => false,
        }
    }

    /// Returns `true` if the readings end with the given strings: the kana
    /// reading ends in `kana`, or both the word and the pattern have a
    /// kanji side and the kanji reading ends in it.
    pub fn ends_with(&self, kana: &str, kanji: Option<&str>) -> (r: bool)
        ensures
            r == spec_ends_with(self@, kana@, opt_view(kanji)),
    {
        if str_ends_with(self.kana.as_str(), kana) {
            return true;
        }
        match &self.kanji {
            Some(word_kanji) => match kanji {
                Some(search_kanji) => str_ends_with(word_kanji.as_str(), search_kanji),
                None => false,
            },
            None => false,
        }
    }

    /// Returns the kana and optionally kanji prefixes with the given
    /// suffixes stripped, or `None` if a reading does not end with its
    /// expected suffix. The kanji side is stripped only when both a kanji
    /// pattern and a kanji reading exist (see [`spec_strip_suffix`]).
    pub fn strip_suffix<'a>(&'a self, kana: &str, kanji: Option<&str>) -> (r: Option<
        (&'a str, Option<&'a str>),
    >)
        ensures
            r is Some <==> spec_strip_suffix(self@, kana@, opt_view(kanji)) is Some,
            r is Some ==> (r->Some_0.0@, opt_view(r->Some_0.1)) == spec_strip_suffix(
                self@,
                kana@,
                opt_view(kanji),
            )->0,
    {
        if !str_ends_with(self.kana.as_str(), kana) {
            return None;
        }
        let kana_len = self.kana.as_str().unicode_len();
        let suffix_len = kana.unicode_len();
        let kana_prefix = self.kana.as_str().substring_char(0, kana_len - suffix_len);
        match kanji {
            Some(suffix) => match &self.kanji {
                Some(reading) => {
                    if !str_ends_with(reading.as_str(), suffix) {
                        return None;
                    }
                    let reading_len = reading.as_str().unicode_len();
                    let ks_len = suffix.unicode_len();
                    let kanji_prefix = reading.as_str().substring_char(0, reading_len - ks_len);
                    Some((kana_prefix, Some(kanji_prefix)))
                },
                None => Some((kana_prefix, None)),
            },
            None => Some((kana_prefix, None)),
        }
    }

    /// Strips the given suffixes from the readings and replaces them with
    /// the new ones, or returns `None` if the word does not carry the
    /// given suffixes (see [`spec_suffix_replaced`]).
    pub fn new_with_suffix_replaced(
        &self,
        kana_suffix: &str,
        kanji_suffix: Option<&str>,
        new_kana_suffix: &str,
        new_kanji_suffix: Option<&str>,
    ) -> (r: Option<Word>)
        ensures
            r is Some <==> spec_suffix_replaced(
                self@,
                kana_suffix@,
                opt_view(kanji_suffix),
                new_kana_suffix@,
                opt_view(new_kanji_suffix),
            ) is Some,
            r is Some ==> r->0@ == spec_suffix_replaced(
                self@,
                kana_suffix@,
                opt_view(kanji_suffix),
                new_kana_suffix@,
                opt_view(new_kanji_suffix),
            )->0,
    {
        match self.strip_suffix(kana_suffix, kanji_suffix) {
            None => None,
            Some((kana_prefix, kanji_prefix)) => {
                let new_kana = String::from_str(kana_prefix).concat(new_kana_suffix);
                let new_kanji = match kanji_prefix {
                    Some(p) => match new_kanji_suffix {
                        Some(s) => Some(String::from_str(p).concat(s)),
                        None => None,
                    },
                    None => None,
                };
                let w = Word { kana: new_kana, kanji: new_kanji, inflections: Vec::new() };
                proof {
                    assert(w@.infl =~= Seq::<Inflection>::empty());
                }
                Some(w)
            },
        }
    }

    /// Returns the kanji reading if there is one, otherwise the kana
    /// reading.
    pub fn get_reading(&self) -> (r: String)
        ensures
            r@ == (match self@.kanji {
                Some(k) => k,
                None => self@.kana,
            }),
    {
        match &self.kanji {
            Some(kanji) => kanji.clone(),
            None => self.kana.clone(),
        }
    }

    /// Returns the kana reading when `kana` is set, otherwise the result
    /// of [`Word::get_reading`].
    pub fn try_kana(&self, kana: bool) -> (r: String)
        ensures
            kana ==> r@ == self@.kana,
            !kana ==> r@ == (match self@.kanji {
                Some(k) => k,
                None => self@.kana,
            }),
    {
        if kana {
            self.kana.clone()
        } else {
            self.get_reading()
        }
    }

    /// Returns the last syllable of the kana reading.
    pub fn ending_syllable(&self) -> (r: Option<Syllable>)
        ensures
            self@.kana.len() == 0 ==> r is None,
            self@.kana.len() > 0 ==> r is Some && r->0.spec_char() == self@.kana.last(),
    {
        let len = self.kana.as_str().unicode_len();
        if len == 0 {
            None
        } else {
            Some(Syllable::new(self.kana.as_str().get_char(len - 1)))
        }
    }

    /// Removes the last `n` characters from both readings.
    pub fn strip_end(self, n: usize) -> (w: Word)
        ensures
            w@ == spec_strip_end(self@, n as nat),
    {
        let kana_len = self.kana.as_str().unicode_len();
        let kana_keep: usize = if n >= kana_len {
            0
        } else {
            kana_len - n
        };
        let new_kana = String::from_str(self.kana.as_str().substring_char(0, kana_keep));
        proof {
            assert(new_kana@ =~= seq_drop_last(self.kana@, n as nat));
        }
        let new_kanji = match &self.kanji {
            Some(kanji) => {
                let kanji_len = kanji.as_str().unicode_len();
                let kanji_keep: usize = if n >= kanji_len {
                    0
                } else {
                    kanji_len - n
                };
                let stripped = String::from_str(kanji.as_str().substring_char(0, kanji_keep));
                proof {
                    assert(stripped@ =~= seq_drop_last(kanji@, n as nat));
                }
                Some(stripped)
            },
            None => None,
        };
        let w = Word { kana: new_kana, kanji: new_kanji, inflections: self.inflections };
        proof {
            assert(w@ =~= spec_strip_end(self@, n as nat));
        }
        w
    }

    /// Appends a string to the end of both readings.
    pub fn push_str(&mut self, s: &str)
        ensures
            final(self)@ == spec_push_str(old(self)@, s@),
    {
        self.kana.append(s);
        match self.kanji.take() {
            Some(mut kanji) => {
                kanji.append(s);
                self.kanji = Some(kanji);
            },
            None => {},
        }
        proof {
            assert(self@ =~= spec_push_str(old(self)@, s@));
        }
    }

    /// Appends a character to the end of both readings.
    pub fn push(&mut self, c: char)
        ensures
            final(self)@ == spec_push(old(self)@, c),
    {
        push_char(&mut self.kana, c);
        match self.kanji.take() {
            Some(mut kanji) => {
                push_char(&mut kanji, c);
                self.kanji = Some(kanji);
            },
            None => {},
        }
        proof {
            assert(self@ =~= spec_push(old(self)@, c));
        }
    }
}

} // verus!
