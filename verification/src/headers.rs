//! The header store: an ordered collection of (name, value) pairs rebuilt on
//! every response, queried by case-insensitive name, where the last pair
//! recorded for a name wins.

use vstd::prelude::*;
use crate::text::{eq_ignore_ascii_case, lower_seq};

verus! {

/// The mapping denoted by a sequence of (name, value) pairs: keys are
/// case-folded names, and a later pair for the same name overrides an
/// earlier one.
pub open spec fn store_from(hs: Seq<(String, String)>) -> Map<Seq<int>, Seq<char>>
    decreases hs.len(),
{
    if hs.len() == 0 {
        Map::empty()
    } else {
        store_from(hs.drop_last()).insert(lower_seq(hs.last().0@), hs.last().1@)
    }
}

/// Header names and values received during one fetch attempt, in arrival
/// order.  Its view is the mapping from case-folded name to the latest value
/// recorded for that name.
pub struct HeaderStore {
    entries: Vec<(String, String)>,
}

impl View for HeaderStore {
    type V = Map<Seq<int>, Seq<char>>;

    closed spec fn view(&self) -> Map<Seq<int>, Seq<char>> {
        store_from(self.entries@)
    }
}

proof fn lemma_store_absent(hs: Seq<(String, String)>, key: Seq<int>)
    requires
        forall|j: int| 0 <= j < hs.len() ==> #[trigger] lower_seq(hs[j].0@) != key,
    ensures
        !store_from(hs).contains_key(key),
    decreases hs.len(),
{
    if hs.len() > 0 {
        lemma_store_absent(hs.drop_last(), key);
    }
}

proof fn lemma_store_last_match(hs: Seq<(String, String)>, key: Seq<int>, m: int)
    requires
        0 <= m < hs.len(),
        lower_seq(hs[m].0@) == key,
        forall|j: int| m < j < hs.len() ==> #[trigger] lower_seq(hs[j].0@) != key,
    ensures
        store_from(hs).contains_key(key),
        store_from(hs)[key] == hs[m].1@,
    decreases hs.len(),
{
    if m < hs.len() - 1 {
        lemma_store_last_match(hs.drop_last(), key, m);
    }
}

impl HeaderStore {
    /// An empty store.
    pub fn new() -> (r: HeaderStore)
        ensures
            r@ == Map::<Seq<int>, Seq<char>>::empty(),
    {
        HeaderStore { entries: Vec::new() }
    }

    /// Forgets every recorded header, as done on entry to each header-fetch
    /// attempt.
    pub fn clear(&mut self)
        ensures
            final(self)@ == Map::<Seq<int>, Seq<char>>::empty(),
    {
        self.entries.clear();
    }

    /// Records one (name, value) pair, overriding any earlier value for the
    /// same name in any casing.
    pub fn insert(&mut self, name: String, value: String)
        ensures
            final(self)@ == old(self)@.insert(lower_seq(name@), value@),
    {
        let ghost prior = self.entries@;
        self.entries.push((name, value));
        proof {
            assert(self.entries@.drop_last() =~= prior);
        }
    }

    /// Looks up the latest value recorded for `name`, compared
    /// case-insensitively.
    pub fn get(&self, name: &str) -> (r: Option<&str>)
        ensures
            match r {
                Some(v) => self@.contains_key(lower_seq(name@)) && v@ == self@[lower_seq(
                    name@,
                )],
                None => !self@.contains_key(lower_seq(name@)),
            },
    {
        let mut i: usize = self.entries.len();
        while i > 0
            invariant
                i <= self.entries.len(),
                forall|j: int|
                    i <= j < self.entries@.len() ==> #[trigger] lower_seq(self.entries@[j].0@)
                        != lower_seq(name@),
            decreases i,
        {
            i = i - 1;
            if eq_ignore_ascii_case(self.entries[i].0.as_str(), name) {
                proof {
                    lemma_store_last_match(self.entries@, lower_seq(name@), i as int);
                }
                return Some(self.entries[i].1.as_str());
            }
        }
        proof {
            lemma_store_absent(self.entries@, lower_seq(name@));
        }
        None
    }
}

/// Header-store round trip: once a (name, value) pair is recorded, a query
/// for that name, whatever its casing, finds that value.
pub proof fn lemma_header_round_trip(
    m: Map<Seq<int>, Seq<char>>,
    name: Seq<char>,
    query: Seq<char>,
    value: Seq<char>,
)
    requires
        lower_seq(query) == lower_seq(name),
    ensures
        m.insert(lower_seq(name), value).contains_key(lower_seq(query)),
        m.insert(lower_seq(name), value)[lower_seq(query)] == value,
{
}

} // verus!
