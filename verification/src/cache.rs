//! The offers last fetched for each account, by the account's title.

use vstd::prelude::*;
use vstd::string::*;
use crate::api::{offers_view, ApiError, Offer, OfferView};
use crate::outside::utc_day_of_month;
use crate::search::{first, first_is_least, least_is_first};
use crate::text::same_text;

verus! {

/// What a cache holds: titles with their offers, in the order in which
/// the titles were first recorded.
pub type Entries = Seq<(Seq<char>, Seq<OfferView>)>;

/// What is wanted of an entry that is looked for by its title.
pub open spec fn titled(title: Seq<char>) -> spec_fn((Seq<char>, Seq<OfferView>)) -> bool {
    |entry: (Seq<char>, Seq<OfferView>)| entry.0 == title
}

/// The place of the first entry with the title `title`.
pub open spec fn position(entries: Entries, title: Seq<char>) -> Option<int> {
    first(entries, titled(title))
}

/// The offers kept under `title`, if any.
pub open spec fn cached(entries: Entries, title: Seq<char>) -> Option<Seq<OfferView>> {
    match position(entries, title) {
        Some(i) => Some(entries[i].1),
        None => None,
    }
}

/// The entries once `offers` are recorded under `title`: in the place of
/// the title's entry where it has one, and at the end where it has none.
pub open spec fn with_entry(entries: Entries, title: Seq<char>, offers: Seq<OfferView>) -> Entries {
    match position(entries, title) {
        Some(i) => entries.update(i, (title, offers)),
        None => entries.push((title, offers)),
    }
}

/// No title occurs twice.
pub open spec fn distinct_titles(entries: Entries) -> bool {
    forall|i: int, j: int|
        0 <= i < j < entries.len() ==> (#[trigger] entries[i]).0 != (#[trigger] entries[j]).0
}

/// Day of the month that no calendar has: the mark of a cache whose
/// offers were never collected.
pub const NEVER: u32 = 0xffff_ffff;

/// One account's offers.
#[derive(Debug, Clone, PartialEq, Eq)]
pub struct CacheEntry {
    pub title: String,
    pub offers: Vec<Offer>,
}

/// The entries of a list, each as what it stands for.
pub open spec fn entries_view(entries: Seq<CacheEntry>) -> Entries {
    entries.map_values(|e: CacheEntry| (e.title@, offers_view(e.offers@)))
}

/// The offers of every account, and the day of the month on which they
/// were collected.
#[derive(Debug)]
pub struct BiedCache {
    entries: Vec<CacheEntry>,
    collect_day: u32,
}

impl View for BiedCache {
    type V = Entries;

    closed spec fn view(&self) -> Entries {
        entries_view(self.entries@)
    }
}

/// Recording offers under a title keeps the titles distinct, makes these
/// the offers kept under the title, and leaves every other title's offers
/// as they were.
pub proof fn recording_replaces_one_title(
    entries: Entries,
    title: Seq<char>,
    offers: Seq<OfferView>,
    other: Seq<char>,
)
    requires
        distinct_titles(entries),
    ensures
        distinct_titles(with_entry(entries, title, offers)),
        cached(with_entry(entries, title, offers), title) == Some(offers),
        other != title ==> cached(with_entry(entries, title, offers), other) == cached(
            entries,
            other,
        ),
{
    let after = with_entry(entries, title, offers);
    first_is_least(entries, titled(title));
    first_is_least(entries, titled(other));
    match position(entries, title) {
        Some(i) => {
            assert forall|k: int| 0 <= k < after.len() implies (#[trigger] after[k]).0
                == entries[k].0 by {}
            least_is_first(after, titled(title), i);
        },
        None => {
            assert forall|k: int| 0 <= k < entries.len() implies (#[trigger] after[k]).0
                == entries[k].0 && entries[k].0 != title by {
                assert(!titled(title)(entries[k]));
            }
            least_is_first(after, titled(title), entries.len() as int);
        },
    }
    assert forall|a: int, b: int| 0 <= a < b < after.len() implies (#[trigger] after[a]).0 != (
    #[trigger] after[b]).0 by {
        if b < entries.len() {
            assert(entries[a].0 != entries[b].0);
        }
    }
    if other != title {
        match position(entries, other) {
            Some(j) => {
                assert(after[j] == entries[j]);
                assert forall|k: int| 0 <= k < j implies !titled(other)(#[trigger] after[k]) by {
                    assert(!titled(other)(entries[k]));
                }
                least_is_first(after, titled(other), j);
            },
            None => {
                first_is_least(after, titled(other));
                if position(after, other) is Some {
                    let k = position(after, other).unwrap();
                    if k < entries.len() {
                        assert(!titled(other)(entries[k]));
                    }
                }
            },
        }
    }
}

impl BiedCache {
    /// The day of the month on which the offers were collected.
    pub closed spec fn collect_day(&self) -> u32 {
        self.collect_day
    }

    /// Each title has one entry, at all times.
    #[verifier::type_invariant]
    closed spec fn titles_distinct(&self) -> bool {
        distinct_titles(entries_view(self.entries@))
    }


    /// An empty cache whose offers were never collected.
    pub fn new() -> (cache: BiedCache)
        ensures
            cache@ == Seq::<(Seq<char>, Seq<OfferView>)>::empty(),
            cache.collect_day() == NEVER,
    {
        BiedCache { entries: Vec::new(), collect_day: NEVER }
    }

    fn find(&self, title: &str) -> (place: Option<usize>)
        ensures
            match place {
                Some(i) => i < self.entries.len() && position(self@, title@) == Some(i as int),
                None => position(self@, title@) is None,
            },
    {
        let mut i: usize = 0;
        while i < self.entries.len()
            invariant
                i <= self.entries.len(),
                forall|k: int| 0 <= k < i ==> (#[trigger] self@[k]).0 != title@,
            decreases self.entries.len() - i,
        {
            if same_text(self.entries[i].title.as_str(), title) {
                proof {
                    least_is_first(self@, titled(title@), i as int);
                }
                return Some(i);
            }
            i = i + 1;
        }
        proof {
            first_is_least(self@, titled(title@));
        }
        None
    }

    /// The offers kept under `title`.
    pub fn get_offers(&self, title: &str) -> (offers: Option<&Vec<Offer>>)
        ensures
            match offers {
                Some(list) => cached(self@, title@) == Some(offers_view(list@)),
                None => cached(self@, title@) is None,
            },
    {
        match self.find(title) {
            Some(i) => Some(&self.entries[i].offers),
            None => None,
        }
    }

    /// The titles and their offers, in the order in which the titles were
    /// first recorded. No title occurs twice.
    pub fn entries(&self) -> (entries: &Vec<CacheEntry>)
        ensures
            entries_view(entries@) == self@,
            distinct_titles(self@),
    {
        proof {
            use_type_invariant(self);
        }
        &self.entries
    }

    /// Forgets all offers.
    pub fn clear(&mut self)
        ensures
            final(self)@ == Seq::<(Seq<char>, Seq<OfferView>)>::empty(),
            final(self).collect_day() == old(self).collect_day(),
    {
        self.entries = Vec::new();
    }

    /// Keeps `offers` under `title`, in place of what was kept there.
    pub fn insert(&mut self, title: String, offers: Vec<Offer>)
        ensures
            final(self)@ == with_entry(old(self)@, title@, offers_view(offers@)),
            distinct_titles(final(self)@),
            final(self).collect_day() == old(self).collect_day(),
    {
        proof {
            use_type_invariant(&*self);
            recording_replaces_one_title(self@, title@, offers_view(offers@), title@);
        }
        let place: Option<usize> = self.find(title.as_str());
        let mut taken: BiedCache = BiedCache::new();
        core::mem::swap(self, &mut taken);
        let BiedCache { entries, collect_day } = taken;
        let mut entries: Vec<CacheEntry> = entries;
        match place {
            Some(i) => {
                entries.set(i, CacheEntry { title, offers });
            },
            None => {
                entries.push(CacheEntry { title, offers });
            },
        }
        assert(entries_view(entries@) =~= with_entry(old(self)@, title@, offers_view(offers@)));
        *self = BiedCache { entries, collect_day };
    }

    /// Takes what was fetched for the account `title`: offers are kept,
    /// and a failure changes nothing.
    pub fn record(&mut self, title: String, fetched: Result<Vec<Offer>, ApiError>)
        ensures
            final(self)@ == (match fetched {
                Ok(offers) => with_entry(old(self)@, title@, offers_view(offers@)),
                Err(_) => old(self)@,
            }),
            distinct_titles(final(self)@),
            final(self).collect_day() == old(self).collect_day(),
    {
        proof {
            use_type_invariant(&*self);
        }
        match fetched {
            Ok(offers) => self.insert(title, offers),
            Err(_) => {},
        }
    }

    /// Whether the offers were collected on the day `today` of the month.
    pub fn is_current(&self, today: u32) -> (current: bool)
        ensures
            current == (today == self.collect_day()),
    {
        today == self.collect_day
    }

    /// Whether the offers are to be fetched again: they are unless they
    /// were collected on today's day of the month, by the clock in UTC. A
    /// cache whose offers were never collected is always due.
    pub fn sync_due(&self) -> (due: bool)
        ensures
            !(1 <= self.collect_day() <= 31) ==> due,
    {
        let today: u32 = utc_day_of_month();
        !self.is_current(today)
    }
}

} // verus!
