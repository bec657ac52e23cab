//! A cell whose value sits behind a lock.
use crate::lock::{trade_in_order, Placed, WithLock};
use crate::order::takes_this_first;
use crate::visit::{exchange, read, reads, replaces, store, stores, trades, Visit};
use vstd::prelude::*;

verus! {

/// A cell that any number of threads may share. Every operation on a shared cell is one
/// visit under the cell's lock.
///
/// Like its lock, a cell admits a set of values, chosen when it is made; only `get_mut`
/// adds to the set.
///
/// The operations that store say two things of their visit: that it was made by the
/// function of `visit` that does the storing, on a value the cell admits, and what that
/// means for the values found and left.
#[verifier::reject_recursive_types(T)]
pub struct MutexCell<T> {
    data: WithLock<T>,
}

impl<T> MutexCell<T> {
    /// Whether the cell may hold `value`.
    pub closed spec fn admits(&self, value: T) -> bool {
        self.data.admits(value)
    }

    /// Whether `visit` is one that this cell allows: it finds and leaves admitted values.
    pub open spec fn grants(&self, visit: Visit<T>) -> bool {
        self.admits(visit.found) && self.admits(visit.left)
    }

    /// A cell that holds `data` and admits every value.
    pub fn new(data: T) -> (cell: MutexCell<T>)
        ensures
            forall|value: T| cell.admits(value),
    {
        MutexCell { data: WithLock::new(data) }
    }

    /// A cell that holds `data` and admits the values of which `admits` holds.
    pub fn admitting(data: T, Ghost(admits): Ghost<spec_fn(T) -> bool>) -> (cell: MutexCell<T>)
        requires
            admits(data),
        ensures
            forall|value: T| cell.admits(value) == admits(value),
    {
        MutexCell { data: WithLock::admitting(data, Ghost(admits)) }
    }

    /// Returns a copy of the value in the cell.
    pub fn get(&self) -> (out: T) where T: Copy
        ensures
            exists|visit: Visit<T>| self.grants(visit) && #[trigger] reads(visit, out),
    {
        self.data.visit_with(
            (),
            |held: &mut T, _unit: ()| -> (out: T)
                ensures
                    reads((Visit { found: *old(held), left: *final(held) }), out),
                { read(held) }
        )
    }

    /// Hands out the value in the cell. The caller has the cell to itself, so no lock is
    /// taken; the value it leaves is admitted from then on.
    pub fn get_mut(&mut self) -> (held: &mut T) where T: Copy
        ensures
            old(self).admits(*held),
            forall|value: T|
                final(self).admits(value) <==> old(self).admits(value) || value == *final(held),
    {
        self.data.get_mut()
    }

    /// Puts `data` into the cell.
    pub fn set(&self, data: T)
        requires
            self.admits(data),
        ensures
            exists|held: &mut T|
                self.grants((Visit { found: *held, left: *final(held) }))
                    && #[trigger] call_ensures(store::<T>, (held, data), ()),
            exists|visit: Visit<T>| self.grants(visit) && #[trigger] stores(visit, data),
    {
        self.data.visit_with(data, store)
    }

    /// Puts `val` into the cell and returns what the cell held, in one visit.
    pub fn replace(&self, val: T) -> (prior: T)
        requires
            self.admits(val),
        ensures
            exists|held: &mut T|
                self.grants((Visit { found: *held, left: *final(held) }))
                    && #[trigger] call_ensures(exchange::<T>, (held, val), prior),
            exists|visit: Visit<T>| self.grants(visit) && #[trigger] replaces(visit, val, prior),
    {
        self.data.visit_with(val, exchange)
    }

    /// The values of this cell and of `new` have changed places in one call of
    /// `trade_in_order`, which took the lock at the lower address first.
    pub closed spec fn traded_in_order(&self, new: &MutexCell<T>) -> bool {
        exists|first: Placed<T>, second: Placed<T>|
            first.address() < second.address() && ((first.lock() == &self.data && second.lock()
                == &new.data) || (first.lock() == &new.data && second.lock() == &self.data))
                && #[trigger] call_ensures(trade_in_order::<T>, (first, second), ())
    }

    /// Exchanges the values of two cells.
    ///
    /// Where both stand at the same address they are one cell: nothing is done and no lock
    /// is taken. Else both locks are held while the values change places, and the cell at
    /// the lower address is locked first, whichever of the two the call was made on.
    pub fn swap(&self, new: &MutexCell<T>)
        requires
            forall|value: T| self.admits(value) == new.admits(value),
        ensures
            *self == *new || self.traded_in_order(new),
            *self == *new || exists|mine: Visit<T>, theirs: Visit<T>|
                self.grants(mine) && new.grants(theirs) && #[trigger] trades(mine, theirs),
    {
        let (mine, theirs) = self.data.place_with(&new.data);
        if mine.at() == theirs.at() {
            return ;
        }
        assert forall|value: T| mine.lock().admits(value) == theirs.lock().admits(value) by {
            assert(self.admits(value) == new.admits(value));
        }
        if takes_this_first(mine.at(), theirs.at()) {
            trade_in_order(mine, theirs)
        } else {
            trade_in_order(theirs, mine)
        }
    }

    /// Puts the default value into the cell and returns what the cell held.
    pub fn take(&self) -> (prior: T) where T: Default
        requires
            forall|fresh: T| call_ensures(T::default, (), fresh) ==> self.admits(fresh),
        ensures
            exists|fresh: T|
                call_ensures(T::default, (), fresh) && #[trigger] call_ensures(
                    MutexCell::<T>::replace,
                    (self, fresh),
                    prior,
                ),
            exists|visit: Visit<T>, fresh: T|
                call_ensures(T::default, (), fresh) && self.grants(visit)
                    && #[trigger] replaces(visit, fresh, prior),
    {
        self.replace(T::default())
    }

    /// A cell that admits a single value is read exactly: every visit to it finds that
    /// value and leaves it.
    pub proof fn single_valued(&self, only: T, visit: Visit<T>)
        requires
            forall|value: T| self.admits(value) ==> value == only,
            self.grants(visit),
        ensures
            visit.found == only,
            visit.left == only,
    {
    }

    /// Unwraps the value that the cell holds when the last visit is over.
    pub fn into_inner(self) -> (out: T)
        ensures
            self.admits(out),
    {
        self.data.into_inner()
    }
}

} // verus!
