//! The first item of a sequence that is wanted.

use vstd::prelude::*;

verus! {

/// The first place at or after `from` whose item is wanted.
pub open spec fn first_from<T>(items: Seq<T>, wanted: spec_fn(T) -> bool, from: int) -> Option<int>
    decreases items.len() - from,
{
    if from < 0 || from >= items.len() {
        None
    } else if wanted(items[from]) {
        Some(from)
    } else {
        first_from(items, wanted, from + 1)
    }
}

/// The first place whose item is wanted.
pub open spec fn first<T>(items: Seq<T>, wanted: spec_fn(T) -> bool) -> Option<int> {
    first_from(items, wanted, 0)
}

proof fn lemma_first_from<T>(items: Seq<T>, wanted: spec_fn(T) -> bool, from: int)
    requires
        0 <= from,
    ensures
        match first_from(items, wanted, from) {
            Some(at) => from <= at < items.len() && wanted(items[at]) && forall|k: int|
                from <= k < at ==> !wanted(#[trigger] items[k]),
            None => forall|k: int| from <= k < items.len() ==> !wanted(#[trigger] items[k]),
        },
    decreases items.len() - from,
{
    if from < items.len() && !wanted(items[from]) {
        lemma_first_from(items, wanted, from + 1);
    }
}

proof fn lemma_first_at<T>(items: Seq<T>, wanted: spec_fn(T) -> bool, from: int, at: int)
    requires
        0 <= from <= at < items.len(),
        wanted(items[at]),
        forall|k: int| from <= k < at ==> !wanted(#[trigger] items[k]),
    ensures
        first_from(items, wanted, from) == Some(at),
    decreases at - from,
{
    if from < at {
        lemma_first_at(items, wanted, from + 1, at);
    }
}

/// The first place is a place whose item is wanted, and no earlier place
/// is one; where there is no first place, no item is wanted.
pub proof fn first_is_least<T>(items: Seq<T>, wanted: spec_fn(T) -> bool)
    ensures
        match first(items, wanted) {
            Some(at) => 0 <= at < items.len() && wanted(items[at]) && forall|k: int|
                0 <= k < at ==> !wanted(#[trigger] items[k]),
            None => forall|k: int| 0 <= k < items.len() ==> !wanted(#[trigger] items[k]),
        },
{
    lemma_first_from(items, wanted, 0);
}

/// A place whose item is wanted, with no such place before it, is the
/// first place.
pub proof fn least_is_first<T>(items: Seq<T>, wanted: spec_fn(T) -> bool, at: int)
    requires
        0 <= at < items.len(),
        wanted(items[at]),
        forall|k: int| 0 <= k < at ==> !wanted(#[trigger] items[k]),
    ensures
        first(items, wanted) == Some(at),
{
    lemma_first_at(items, wanted, 0, at);
}

} // verus!
