//! The filters of a listing query, read from a URL query string.

use vstd::prelude::*;
use vstd::utf8::encode_utf8;

use crate::text::str_eq;

verus! {

/// A decoded query string: its name and value pairs, in order.
pub type Pairs = Seq<(Seq<char>, Seq<char>)>;

/// The five filters a listing query honours. A filter that the query string
/// did not name is `None`.
#[derive(Clone, Debug, PartialEq, Eq, Default)]
pub struct Filters {
    pub search: Option<String>,
    pub page: Option<String>,
    pub targets: Option<String>,
    pub advertisers: Option<String>,
    pub entities: Option<String>,
}

/// The mathematical value of [`Filters`].
pub struct FiltersView {
    pub search: Option<Seq<char>>,
    pub page: Option<Seq<char>>,
    pub targets: Option<Seq<char>>,
    pub advertisers: Option<Seq<char>>,
    pub entities: Option<Seq<char>>,
}

impl DeepView for Filters {
    type V = FiltersView;

    open spec fn deep_view(&self) -> FiltersView {
        FiltersView {
            search: self.search.deep_view(),
            page: self.page.deep_view(),
            targets: self.targets.deep_view(),
            advertisers: self.advertisers.deep_view(),
            entities: self.entities.deep_view(),
        }
    }
}

/// The value that the last pair named `key` carries, if any pair is named so.
pub open spec fn last_value(pairs: Pairs, key: Seq<char>) -> Option<Seq<char>>
    decreases pairs.len(),
{
    if pairs.len() == 0 {
        None
    } else if pairs.last().0 == key {
        Some(pairs.last().1)
    } else {
        last_value(pairs.drop_last(), key)
    }
}

/// Whether a listing query honours a parameter of this name.
pub open spec fn recognized(key: Seq<char>) -> bool {
    ||| key == "search"@
    ||| key == "page"@
    ||| key == "targets"@
    ||| key == "advertisers"@
    ||| key == "entities"@
}

/// The filters that a sequence of pairs selects: for each recognized name the
/// value of the last pair that carries it.
pub open spec fn filters_of(pairs: Pairs) -> FiltersView {
    FiltersView {
        search: last_value(pairs, "search"@),
        page: last_value(pairs, "page"@),
        targets: last_value(pairs, "targets"@),
        advertisers: last_value(pairs, "advertisers"@),
        entities: last_value(pairs, "entities"@),
    }
}

/// The last value under a name, one pair further: the new pair's value where
/// it carries the name, the value so far where it does not.
proof fn lemma_last_value_step(pairs: Pairs, i: int)
    requires
        0 <= i < pairs.len(),
    ensures
        forall|key: Seq<char>| #[trigger]
            last_value(pairs.take(i + 1), key) == if pairs[i].0 == key {
                Some(pairs[i].1)
            } else {
                last_value(pairs.take(i), key)
            },
{
    assert(pairs.take(i + 1).drop_last() =~= pairs.take(i));
    assert(pairs.take(i + 1).last() == pairs[i]);
}

/// The five recognized names are five different texts.
proof fn lemma_names_differ()
    ensures
        "search"@.len() == 6,
        "page"@.len() == 4,
        "targets"@.len() == 7,
        "advertisers"@.len() == 11,
        "entities"@.len() == 8,
{
    reveal_strlit("search");
    reveal_strlit("page");
    reveal_strlit("targets");
    reveal_strlit("advertisers");
    reveal_strlit("entities");
}

/// What `url::form_urlencoded::parse` reads from the bytes of a query string.
pub uninterp spec fn form_pairs(input: Seq<u8>) -> Pairs;

/// `url::form_urlencoded::parse`, collected: the decoded pairs depend on the
/// input bytes alone, and are named [`form_pairs`].
#[verifier::external_body]
pub(crate) fn parse_pairs(input: &[u8]) -> (pairs: Vec<(String, String)>)
    ensures
        pairs.deep_view() == form_pairs(input@),
{
    url::form_urlencoded::parse(input).into_owned().collect()
}

impl Filters {
    /// No filter at all.
    pub fn none() -> (filters: Filters)
        ensures
            filters.deep_view() == filters_of(Seq::empty()),
    {
        Filters { search: None, page: None, targets: None, advertisers: None, entities: None }
    }

    /// Selects the filters among decoded pairs. A later pair replaces an
    /// earlier one of the same name; pairs of any other name are dropped.
    pub fn from_pairs(pairs: &Vec<(String, String)>) -> (filters: Filters)
        ensures
            filters.deep_view() == filters_of(pairs.deep_view()),
    {
        let mut filters = Filters::none();
        let mut i: usize = 0;
        while i < pairs.len()
            invariant
                i <= pairs.len(),
                filters.deep_view() == filters_of(pairs.deep_view().take(i as int)),
            decreases pairs.len() - i,
        {
            let name = pairs[i].0.as_str();
            proof {
                lemma_names_differ();
                lemma_last_value_step(pairs.deep_view(), i as int);
            }
            if str_eq(name, "search") {
                filters.search = Some(pairs[i].1.clone());
            } else if str_eq(name, "page") {
                filters.page = Some(pairs[i].1.clone());
            } else if str_eq(name, "targets") {
                filters.targets = Some(pairs[i].1.clone());
            } else if str_eq(name, "advertisers") {
                filters.advertisers = Some(pairs[i].1.clone());
            } else if str_eq(name, "entities") {
                filters.entities = Some(pairs[i].1.clone());
            }
            i += 1;
        }
        assert(pairs.deep_view().take(pairs.len() as int) =~= pairs.deep_view());
        filters
    }

    /// The filters of a request: those its query string names, none where it
    /// has no query string.
    pub fn from_query(query: Option<&str>) -> (filters: Filters)
        ensures
            filters.deep_view() == filters_of(
                match query {
                    Some(q) => form_pairs(encode_utf8(q@)),
                    None => Seq::empty(),
                },
            ),
    {
        match query {
            Some(q) => {
                let pairs = parse_pairs(q.as_bytes());
                Filters::from_pairs(&pairs)
            },
            None => Filters::none(),
        }
    }
}


/// Where the last value under a name comes from: from a pair of that name
/// after which no pair of that name follows. Without such a pair there is no
/// value.
pub proof fn lemma_last_value(pairs: Pairs, key: Seq<char>)
    ensures
        match last_value(pairs, key) {
            Some(value) => exists|i: int|
                0 <= i < pairs.len() && pairs[i] == (key, value) && forall|j: int|
                    i < j < pairs.len() ==> (#[trigger] pairs[j]).0 != key,
            None => forall|j: int| 0 <= j < pairs.len() ==> (#[trigger] pairs[j]).0 != key,
        },
    decreases pairs.len(),
{
    if pairs.len() == 0 {
    } else if pairs.last().0 == key {
        let i = pairs.len() - 1;
        assert(pairs[i] == (key, pairs.last().1));
    } else {
        let front = pairs.drop_last();
        lemma_last_value(front, key);
        match last_value(front, key) {
            Some(value) => {
                let i = choose|i: int|
                    0 <= i < front.len() && front[i] == (key, value) && forall|j: int|
                        i < j < front.len() ==> (#[trigger] front[j]).0 != key;
                assert(pairs[i] == front[i]);
                assert forall|j: int| i < j < pairs.len() implies (#[trigger] pairs[j]).0
                    != key by {
                    if j < front.len() {
                        assert(pairs[j] == front[j]);
                    }
                }
            },
            None => {
                assert forall|j: int| 0 <= j < pairs.len() implies (#[trigger] pairs[j]).0
                    != key by {
                    if j < front.len() {
                        assert(pairs[j] == front[j]);
                    }
                }
            },
        }
    }
}

/// Pairs of another name do not touch the value under a name.
proof fn lemma_other_names_leave_value(pairs: Pairs, key: Seq<char>)
    requires
        recognized(key),
    ensures
        last_value(pairs.filter(|pair: (Seq<char>, Seq<char>)| recognized(pair.0)), key)
            == last_value(pairs, key),
    decreases pairs.len(),
{
    reveal(Seq::filter);
    let keep = |pair: (Seq<char>, Seq<char>)| recognized(pair.0);
    if pairs.len() > 0 {
        let front = pairs.drop_last();
        lemma_other_names_leave_value(front, key);
        if keep(pairs.last()) {
            let kept = front.filter(keep).push(pairs.last());
            assert(kept.drop_last() =~= front.filter(keep));
            assert(kept.last() == pairs.last());
        }
    }
}

/// Parameters that a listing does not recognize are dropped without a trace:
/// the filters are those of the recognized pairs alone.
pub proof fn law_unrecognized_pairs_are_dropped(pairs: Pairs)
    ensures
        filters_of(pairs.filter(|pair: (Seq<char>, Seq<char>)| recognized(pair.0))) == filters_of(
            pairs,
        ),
{
    lemma_other_names_leave_value(pairs, "search"@);
    lemma_other_names_leave_value(pairs, "page"@);
    lemma_other_names_leave_value(pairs, "targets"@);
    lemma_other_names_leave_value(pairs, "advertisers"@);
    lemma_other_names_leave_value(pairs, "entities"@);
}

} // verus!
