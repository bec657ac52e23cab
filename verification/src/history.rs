//! What follows for a whole run of visits.
//!
//! A mutex lets in one holder at a time, so the visits to one lock stand in a row: each
//! finds what the one before it left. The laws here are stated of such a row. Where they
//! speak of a visit and "the next one", no third visit came between the two; on a lock
//! that several threads share, nothing but the row says so.
use crate::visit::{reads, replaces, stores, trades, Visit};
use vstd::prelude::*;

verus! {

/// What the lock holds before the visit at `index` of the row (after the last visit, where
/// `index` is the length of the row): the value the lock was made around, or what the
/// visit before left.
pub open spec fn held_before<T>(first: T, visits: Seq<Visit<T>>, index: int) -> T {
    if index <= 0 {
        first
    } else {
        visits[index - 1].left
    }
}

/// What the lock holds when the whole row is over.
pub open spec fn held_after<T>(first: T, visits: Seq<Visit<T>>) -> T {
    held_before(first, visits, visits.len() as int)
}

/// `visits` are the visits to one lock made around `first`, in the order in which the
/// lock was granted: each visit finds what the lock holds at that time.
pub open spec fn handed_on<T>(first: T, visits: Seq<Visit<T>>) -> bool {
    forall|index: int|
        0 <= index < visits.len() ==> (#[trigger] visits[index]).found == held_before(
            first,
            visits,
            index,
        )
}

/// A lock made around an admitted value, which no holder leaves with a value that is not
/// admitted, holds an admitted value at all times: no holder finds anything else.
pub proof fn admitted_throughout<T>(
    admits: spec_fn(T) -> bool,
    first: T,
    visits: Seq<Visit<T>>,
    index: int,
)
    requires
        handed_on(first, visits),
        admits(first),
        forall|at: int|
            0 <= at < visits.len() && admits((#[trigger] visits[at]).found) ==> admits(
                visits[at].left,
            ),
        0 <= index <= visits.len(),
    ensures
        admits(held_before(first, visits, index)),
    decreases index,
{
    if index > 0 {
        admitted_throughout(admits, first, visits, index - 1);
    }
}

/// Where every visit either leaves the value as it found it or leaves one of the values
/// in `stored`, every visit finds the first value or one of those in `stored`, whole: no
/// holder ever sees anything that nobody stored.
pub proof fn finds_what_was_stored<T>(
    stored: Set<T>,
    first: T,
    visits: Seq<Visit<T>>,
    index: int,
)
    requires
        handed_on(first, visits),
        forall|at: int|
            0 <= at < visits.len() ==> (#[trigger] visits[at]).left == visits[at].found
                || stored.contains(visits[at].left),
        0 <= index < visits.len(),
    ensures
        visits[index].found == first || stored.contains(visits[index].found),
{
    let admits = |value: T| value == first || stored.contains(value);
    admitted_throughout(admits, first, visits, index);
}

/// The first visit to a lock finds the value the lock was made around.
pub proof fn first_get<T>(first: T, visits: Seq<Visit<T>>, out: T)
    requires
        handed_on(first, visits),
        visits.len() > 0,
        reads(visits[0], out),
    ensures
        out == first,
{
}

/// A visit that reads finds what the visit before it stored.
pub proof fn get_after_set<T>(first: T, visits: Seq<Visit<T>>, index: int, value: T, out: T)
    requires
        handed_on(first, visits),
        0 <= index,
        index + 1 < visits.len(),
        stores(visits[index], value),
        reads(visits[index + 1], out),
    ensures
        out == value,
{
}

/// A visit that replaces carries away what the lock held, and the next visit, if it
/// reads, finds the value that was put in.
pub proof fn get_after_replace<T>(
    first: T,
    visits: Seq<Visit<T>>,
    index: int,
    value: T,
    prior: T,
    out: T,
)
    requires
        handed_on(first, visits),
        0 <= index < visits.len(),
        replaces(visits[index], value, prior),
        index + 1 < visits.len() ==> reads(visits[index + 1], out),
    ensures
        prior == held_before(first, visits, index),
        index + 1 < visits.len() ==> out == value,
{
}

/// A visit that takes carries away what the lock held, and the next visit, if it reads,
/// finds a default value.
pub proof fn get_after_take<T: Default>(
    first: T,
    visits: Seq<Visit<T>>,
    index: int,
    fresh: T,
    prior: T,
    out: T,
)
    requires
        handed_on(first, visits),
        0 <= index < visits.len(),
        call_ensures(T::default, (), fresh),
        replaces(visits[index], fresh, prior),
        index + 1 < visits.len() ==> reads(visits[index + 1], out),
    ensures
        prior == held_before(first, visits, index),
        index + 1 < visits.len() ==> call_ensures(T::default, (), out),
{
}

/// Two visits that trade, one to each of two locks, leave each lock with what the other
/// held; the next visit to either lock, if it reads, finds just that.
pub proof fn get_after_swap<T>(
    first_here: T,
    here: Seq<Visit<T>>,
    at_here: int,
    out_here: T,
    first_there: T,
    there: Seq<Visit<T>>,
    at_there: int,
    out_there: T,
)
    requires
        handed_on(first_here, here),
        handed_on(first_there, there),
        0 <= at_here,
        at_here + 1 < here.len(),
        0 <= at_there,
        at_there + 1 < there.len(),
        trades(here[at_here], there[at_there]),
        reads(here[at_here + 1], out_here),
        reads(there[at_there + 1], out_there),
    ensures
        out_here == held_before(first_there, there, at_there),
        out_there == held_before(first_here, here, at_here),
{
}

/// When the row is over the lock holds what the last visit stored, and the value it was
/// made around if nobody came.
pub proof fn holds_last_stored<T>(first: T, visits: Seq<Visit<T>>, value: T)
    requires
        handed_on(first, visits),
        visits.len() > 0 ==> stores(visits.last(), value),
        visits.len() == 0 ==> value == first,
    ensures
        held_after(first, visits) == value,
{
}

} // verus!
