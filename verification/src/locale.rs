//! Locale negotiation: one locale out of a list of language preferences.

use vstd::prelude::*;
use vstd::string::StringExecFns;

use crate::text::{to_uppercase, uppercased};

verus! {

/// One language preference: the language and the region it names, as far as
/// it names them.
#[derive(Clone, Debug, PartialEq, Eq)]
pub struct LanguageTag {
    pub language: Option<String>,
    pub region: Option<String>,
}

/// The mathematical value of a [`LanguageTag`].
pub struct LanguageTagView {
    pub language: Option<Seq<char>>,
    pub region: Option<Seq<char>>,
}

impl DeepView for LanguageTag {
    type V = LanguageTagView;

    open spec fn deep_view(&self) -> LanguageTagView {
        LanguageTagView { language: self.language.deep_view(), region: self.region.deep_view() }
    }
}

impl LanguageTagView {
    /// Whether the preference names both a language and a region.
    pub open spec fn qualified(self) -> bool {
        self.language is Some && self.region is Some
    }

    /// The locale of a qualified preference: its language, a hyphen, and its
    /// region in upper case.
    pub open spec fn locale(self) -> Seq<char>
        recommends
            self.qualified(),
    {
        self.language->0 + "-"@ + uppercased(self.region->0)
    }
}

/// The first preference that names both a language and a region.
pub open spec fn first_qualified(tags: Seq<LanguageTagView>) -> Option<LanguageTagView>
    decreases tags.len(),
{
    if tags.len() == 0 {
        None
    } else if tags[0].qualified() {
        Some(tags[0])
    } else {
        first_qualified(tags.drop_first())
    }
}

/// The locale that a list of preferences settles on: that of the first
/// qualified preference; without one, the language of the preference stated
/// first. No list, an empty list, or a first preference without a language
/// where none is qualified, settle on nothing.
pub open spec fn negotiated(languages: Option<Seq<LanguageTagView>>) -> Option<Seq<char>> {
    match languages {
        None => None,
        Some(tags) => if tags.len() == 0 {
            None
        } else {
            match first_qualified(tags) {
                Some(tag) => Some(tag.locale()),
                None => tags[0].language,
            }
        },
    }
}

/// Where the first qualified preference stands: every preference before it
/// lacks a language or a region.
pub proof fn lemma_first_qualified(tags: Seq<LanguageTagView>)
    ensures
        match first_qualified(tags) {
            Some(tag) => exists|i: int|
                0 <= i < tags.len() && tags[i] == tag && tag.qualified() && forall|j: int|
                    0 <= j < i ==> !(#[trigger] tags[j]).qualified(),
            None => forall|j: int| 0 <= j < tags.len() ==> !(#[trigger] tags[j]).qualified(),
        },
    decreases tags.len(),
{
    if tags.len() == 0 {
    } else if tags[0].qualified() {
        assert(forall|j: int| 0 <= j < 0 ==> !(#[trigger] tags[j]).qualified());
    } else {
        let rest = tags.drop_first();
        lemma_first_qualified(rest);
        match first_qualified(rest) {
            Some(tag) => {
                let i = choose|i: int|
                    0 <= i < rest.len() && rest[i] == tag && tag.qualified() && forall|j: int|
                        0 <= j < i ==> !(#[trigger] rest[j]).qualified();
                assert(tags[i + 1] == tag);
                assert forall|j: int| 0 <= j < i + 1 implies !(#[trigger] tags[j]).qualified() by {
                    if j > 0 {
                        assert(tags[j] == rest[j - 1]);
                    }
                }
            },
            None => {
                assert forall|j: int| 0 <= j < tags.len() implies !(#[trigger] tags[j]).qualified() by {
                    if j > 0 {
                        assert(tags[j] == rest[j - 1]);
                    }
                }
            },
        }
    }
}

/// Settles the locale of a request from its language preferences.
pub fn negotiate(languages: Option<&Vec<LanguageTag>>) -> (locale: Option<String>)
    ensures
        locale.deep_view() == negotiated(languages.deep_view()),
{
    let tags = match languages {
        Some(tags) => tags,
        None => {
            return None;
        },
    };
    if tags.len() == 0 {
        return None;
    }
    let ghost all = tags.deep_view();
    assert(all.skip(0) =~= all);
    let mut i: usize = 0;
    while i < tags.len()
        invariant
            i <= tags.len(),
            all == tags.deep_view(),
            all.len() > 0,
            languages.deep_view() == Some(all),
            first_qualified(all) == first_qualified(all.skip(i as int)),
        decreases tags.len() - i,
    {
        proof {
            assert(all.skip(i as int)[0] == all[i as int]);
            assert(all[i as int] == tags@[i as int].deep_view());
            assert(all.skip(i as int).drop_first() =~= all.skip(i + 1));
        }
        match (&tags[i].language, &tags[i].region) {
            (Some(language), Some(region)) => {
                let upper = to_uppercase(region.as_str());
                let locale = language.clone().concat("-").concat(upper.as_str());
                return Some(locale);
            },
            _ => {},
        }
        i += 1;
    }
    match &tags[0].language {
        Some(language) => Some(language.clone()),
        None => None,
    }
}

} // verus!
