//! Localised text: an ordered, non-empty list of language-tagged entries, kept in wire order
//! with duplicate languages preserved. An absent language tag reads as `en`.
use crate::chars::string_from_chars;
use crate::error::Error;
use crate::ident::str_eq;
use vstd::prelude::*;

verus! {

/// One language variant of a text: the stated `xml:lang` tag (absent means the schema default
/// `en`) and the text itself.
#[derive(Clone, Debug, PartialEq, Eq, Hash)]
pub struct LocalisedText {
    pub language: Option<String>,
    pub text: String,
}

/// `en`, the schema default language.
pub open spec fn default_language() -> Seq<char> {
    seq!['e', 'n']
}

/// The effective language of an entry: its stated tag, else `en`.
pub open spec fn effective_language(e: LocalisedText) -> Seq<char> {
    match e.language {
        Some(l) => l@,
        None => default_language(),
    }
}

/// The index of the first entry whose effective language is `lang`, or the length.
pub open spec fn first_language_index(entries: Seq<LocalisedText>, lang: Seq<char>, i: int) -> int
    decreases entries.len() - i,
{
    if i < 0 || i >= entries.len() || effective_language(entries[i]) == lang {
        i
    } else {
        first_language_index(entries, lang, i + 1)
    }
}

pub proof fn lemma_first_language_index(entries: Seq<LocalisedText>, lang: Seq<char>, i: int)
    requires
        0 <= i <= entries.len(),
    ensures
        i <= first_language_index(entries, lang, i) <= entries.len(),
        forall|k: int|
            i <= k < first_language_index(entries, lang, i) ==> effective_language(
                #[trigger] entries[k],
            ) != lang,
        first_language_index(entries, lang, i) < entries.len() ==> effective_language(
            entries[first_language_index(entries, lang, i)],
        ) == lang,
    decreases entries.len() - i,
{
    if i < entries.len() && effective_language(entries[i]) != lang {
        lemma_first_language_index(entries, lang, i + 1);
    }
}

/// A localised string: one or more language variants, in wire order.
#[derive(Debug, PartialEq, Eq, Hash)]
pub struct LocalisedString(Vec<LocalisedText>);

impl LocalisedString {
    #[verifier::type_invariant]
    closed spec fn non_empty(self) -> bool {
        self.0@.len() > 0
    }
}

impl Clone for LocalisedString {
    fn clone(&self) -> (r: Self)
        ensures
            r@.len() == self@.len(),
    {
        proof {
            use_type_invariant(self);
        }
        LocalisedString(self.0.clone())
    }
}

impl View for LocalisedString {
    type V = Seq<LocalisedText>;

    closed spec fn view(&self) -> Seq<LocalisedText> {
        self.0@
    }
}

/// Whether `a` holds the characters `en`.
fn is_default_language(a: &str) -> (r: bool)
    ensures
        r == (a@ == default_language()),
{
    let en: [char; 2] = ['e', 'n'];
    let s = string_from_chars(en.as_slice());
    assert(en@ =~= default_language());
    str_eq(a, s.as_str())
}

impl LocalisedString {
    /// Builds a localised string; fails with `EmptyLocalisation` exactly when `entries` is
    /// empty.
    pub fn new(entries: Vec<LocalisedText>) -> (r: Result<Self, Error>)
        ensures
            match r {
                Ok(s) => entries@.len() > 0 && s@ == entries@,
                Err(e) => entries@.len() == 0 && e == Error::EmptyLocalisation,
            },
    {
        if entries.len() == 0 {
            return Err(Error::EmptyLocalisation);
        }
        Ok(LocalisedString(entries))
    }

    /// The text of the first entry whose effective language (stated tag, else `en`) is
    /// `lang`, or `None` when no entry has it.
    pub fn get(&self, lang: &str) -> (r: Option<&str>)
        ensures
            match r {
                Some(t) => {
                    let i = first_language_index(self@, lang@, 0);
                    i < self@.len() && t@ == self@[i].text@
                },
                None => first_language_index(self@, lang@, 0) == self@.len(),
            },
    {
        proof {
            lemma_first_language_index(self@, lang@, 0);
        }
        let mut i: usize = 0;
        while i < self.0.len()
            invariant
                i <= self@.len(),
                first_language_index(self@, lang@, 0) == first_language_index(
                    self@,
                    lang@,
                    i as int,
                ),
            decreases self@.len() - i,
        {
            let entry = &self.0[i];
            let matches = match &entry.language {
                Some(l) => str_eq(l.as_str(), lang),
                None => is_default_language(lang),
            };
            if matches {
                return Some(entry.text.as_str());
            }
            i = i + 1;
        }
        None
    }

    /// The text of the first entry in wire order.
    pub fn first(&self) -> (r: &str)
        ensures
            self@.len() > 0,
            r@ == self@[0].text@,
    {
        proof {
            use_type_invariant(self);
        }
        self.0[0].text.as_str()
    }

    /// The entries in wire order.
    pub fn iter(&self) -> (r: core::slice::Iter<'_, LocalisedText>)
        ensures
            vstd::std_specs::iter::IteratorSpec::remaining(&r) == self@.as_ref(),
    {
        broadcast use vstd::std_specs::slice::group_slice_axioms;
        self.0.as_slice().iter()
    }

    /// The entries in wire order.
    pub fn as_slice(&self) -> (r: &[LocalisedText])
        ensures
            r@ == self@,
    {
        self.0.as_slice()
    }

    /// Consumes the value, returning its entries.
    pub fn into_inner(self) -> (r: Vec<LocalisedText>)
        ensures
            r@ == self@,
    {
        self.0
    }

    /// The effective language of each entry, in wire order (an absent tag reads `en`).
    pub fn languages(&self) -> (r: Vec<String>)
        ensures
            r@.len() == self@.len(),
            forall|i: int| 0 <= i < self@.len() ==> (#[trigger] r@[i])@ == effective_language(
                self@[i],
            ),
    {
        let mut out: Vec<String> = Vec::new();
        let mut i: usize = 0;
        while i < self.0.len()
            invariant
                i <= self@.len(),
                out@.len() == i,
                forall|k: int| 0 <= k < i ==> (#[trigger] out@[k])@ == effective_language(
                    self@[k],
                ),
            decreases self@.len() - i,
        {
            let l = match &self.0[i].language {
                Some(l) => l.clone(),
                None => {
                    let en: [char; 2] = ['e', 'n'];
                    let s = string_from_chars(en.as_slice());
                    assert(en@ =~= default_language());
                    s
                },
            };
            out.push(l);
            i = i + 1;
        }
        out
    }

    /// The number of entries (at least one).
    pub fn len(&self) -> (r: usize)
        ensures
            r == self@.len(),
            r > 0,
    {
        proof {
            use_type_invariant(self);
        }
        self.0.len()
    }
}

impl vstd::std_specs::convert::TryFromSpecImpl<Vec<LocalisedText>> for LocalisedString {
    open spec fn obeys_try_from_spec() -> bool {
        true
    }

    closed spec fn try_from_spec(entries: Vec<LocalisedText>) -> Result<Self, Error> {
        if entries@.len() == 0 {
            Err(Error::EmptyLocalisation)
        } else {
            Ok(LocalisedString(entries))
        }
    }
}

impl TryFrom<Vec<LocalisedText>> for LocalisedString {
    type Error = Error;

    fn try_from(entries: Vec<LocalisedText>) -> (r: Result<Self, Error>)
        ensures
            match r {
                Ok(s) => entries@.len() > 0 && s@ == entries@,
                Err(e) => entries@.len() == 0 && e == Error::EmptyLocalisation,
            },
    {
        if entries.len() == 0 {
            Err(Error::EmptyLocalisation)
        } else {
            Ok(LocalisedString(entries))
        }
    }
}

impl vstd::std_specs::convert::FromSpecImpl<LocalisedString> for Vec<LocalisedText> {
    open spec fn obeys_from_spec() -> bool {
        true
    }

    closed spec fn from_spec(v: LocalisedString) -> Vec<LocalisedText> {
        v.0
    }
}

impl From<LocalisedString> for Vec<LocalisedText> {
    fn from(v: LocalisedString) -> (r: Vec<LocalisedText>)
        ensures
            r@ == v@,
    {
        v.0
    }
}

} // verus!
