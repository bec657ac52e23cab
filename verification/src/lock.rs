//! A value behind a mutex that is held only for the length of one callback.
use crate::visit::{trade, trades, Visit};
use parking_lot::lock_api::{Mutex, MutexGuard};
use parking_lot::RawMutex;
use vstd::prelude::*;

verus! {

/// `parking_lot::RawMutex`, the lock word of parking_lot's mutex. Nothing is claimed of it.
#[verifier::external_type_specification]
#[verifier::external_body]
pub struct ExRawMutex(RawMutex);

/// `lock_api::Mutex`, which parking_lot exports as its `Mutex` with `RawMutex` for `R`.
/// What it guards changes behind a shared reference, so a value of this type says nothing
/// about it: nothing is claimed of the type.
#[verifier::external_type_specification]
#[verifier::external_body]
#[verifier::reject_recursive_types(R)]
#[verifier::reject_recursive_types(T)]
pub struct ExMutex<R, T: ?Sized>(Mutex<R, T>);

/// `parking_lot::const_mutex` makes an unlocked mutex around `val`. The mutex is opaque, so
/// nothing is claimed of the result.
pub assume_specification<T>[ parking_lot::const_mutex::<T> ](val: T) -> (mutex: Mutex<RawMutex, T>);

/// `lock_api::MutexGuard` of a parking_lot mutex. The guard's own declaration is bounded by
/// a trait of lock_api that Verus does not know, so the guard is kept behind this struct.
#[verifier::external_body]
#[verifier::reject_recursive_types(T)]
struct Guard<'a, T>(MutexGuard<'a, RawMutex, T>);

/// A lock that has been taken and not yet given back.
#[verifier::reject_recursive_types(T)]
struct Taken<'a, T> {
    guard: Guard<'a, T>,
    /// The value under the lock at this moment.
    now: Ghost<T>,
    /// What the lock admits.
    admits: Ghost<spec_fn(T) -> bool>,
}

impl<'a, T> Taken<'a, T> {
    /// `DerefMut::deref_mut` of `lock_api::MutexGuard`: the reference points at the value
    /// under the lock, so what is written through it is what the lock holds from then on.
    #[verifier::external_body]
    fn value_mut(&mut self) -> (value: &mut T)
        ensures
            *value == old(self).now@,
            final(self).now@ == *final(value),
            final(self).admits@ == old(self).admits@,
    {
        &mut *self.guard.0
    }

    /// Drops the `lock_api::MutexGuard`, which unlocks the mutex. The next holder finds the
    /// value that is under the lock now, so that value has to be one the lock admits.
    #[verifier::external_body]
    fn release(self)
        requires
            (self.admits@)(self.now@),
    {
        drop(self.guard.0)
    }
}

/// A value that can only be reached under its lock, for the length of one callback.
///
/// A lock admits a set of values, chosen when it is made; only a caller that has the lock
/// to itself can add to the set. A lock made by `new` admits every value.
///
/// The mutex is parking_lot's, which does not poison: a callback that panics gives the
/// lock back as it unwinds, and the next holder finds the value as that callback left it.
/// For that reason `with_lock`, which runs any callback, is only for locks that admit
/// every value: there is nothing such a callback could leave that the next holder must not
/// find.
#[verifier::reject_recursive_types(T)]
pub struct WithLock<T> {
    data: Mutex<RawMutex, T>,
    admits: Ghost<spec_fn(T) -> bool>,
}

/// A lock together with the address at which it stands while it is borrowed.
#[verifier::reject_recursive_types(T)]
pub(crate) struct Placed<'a, T> {
    lock: &'a WithLock<T>,
    at: usize,
}

impl<'a, T> Placed<'a, T> {
    /// The lock.
    pub(crate) closed spec fn lock(&self) -> &'a WithLock<T> {
        self.lock
    }

    /// The address that was found for the lock.
    pub(crate) closed spec fn address(&self) -> usize {
        self.at
    }

    /// The address that was found for the lock.
    pub(crate) fn at(&self) -> (at: usize)
        ensures
            at == self.address(),
    {
        self.at
    }
}

impl<T> WithLock<T> {
    /// Whether the lock may guard `value`.
    pub closed spec fn admits(&self, value: T) -> bool {
        (self.admits@)(value)
    }

    /// Whether `visit` is one that this lock allows: it finds and leaves admitted values.
    pub open spec fn grants(&self, visit: Visit<T>) -> bool {
        self.admits(visit.found) && self.admits(visit.left)
    }

    /// Guards `data` with a lock that admits every value.
    pub fn new(data: T) -> (lock: WithLock<T>)
        ensures
            forall|value: T| lock.admits(value),
    {
        WithLock::admitting(data, Ghost(|value: T| true))
    }

    /// Guards `data` with a lock that admits the values of which `admits` holds.
    pub(crate) fn admitting(data: T, Ghost(admits): Ghost<spec_fn(T) -> bool>) -> (lock: WithLock<T>)
        requires
            admits(data),
        ensures
            forall|value: T| lock.admits(value) == admits(value),
    {
        WithLock { data: parking_lot::const_mutex(data), admits: Ghost(admits) }
    }

    /// `lock_api::Mutex::lock` waits until the mutex is free and returns its guard.
    ///
    /// The contract claims that the value then under the lock is an admitted one. The mutex
    /// does not check that. It holds because the mutex lets in one holder at a time, the
    /// lock was made around an admitted value, and every stay leaves an admitted value
    /// however it ends: where it ends in `release`, which asks for one, and where it ends in
    /// the callback unwinding, by what `visit_with` says of its callbacks.
    /// `history::admitted_throughout` draws the conclusion.
    ///
    /// `lock` does not return to a caller that holds this same lock already; no contract
    /// here can rule that caller out.
    #[verifier::external_body]
    fn acquire(&self) -> (taken: Taken<'_, T>)
        ensures
            taken.admits@ == self.admits@,
            self.admits(taken.now@),
    {
        Taken { guard: Guard(self.data.lock()), now: Ghost(arbitrary()), admits: Ghost(self.admits@) }
    }

    /// Takes the lock, runs `function` once on the guarded value and on `extra`, gives the
    /// lock back and returns what `function` returned.
    ///
    /// Where `function` unwinds, the lock is given back all the same, with the value as it
    /// stands. On a lock that does not admit every value this crate therefore hands in only
    /// callbacks that put the new value in place by `visit::read`, `visit::store`,
    /// `visit::exchange` or `visit::trade`: one step that cannot unwind, with an admitted
    /// value under the lock before it and after it.
    pub(crate) fn visit_with<A, F, U>(&self, extra: A, function: F) -> (out: U) where
        F: FnOnce(&mut T, A) -> U,

        requires
            forall|held: &mut T| self.admits(*held) ==> call_requires(function, (held, extra)),
            forall|held: &mut T, out: U|
                self.admits(*held) && call_ensures(function, (held, extra), out) ==> self.admits(
                    *final(held),
                ),
        ensures
            exists|held: &mut T|
                self.grants((Visit { found: *held, left: *final(held) }))
                    && #[trigger] call_ensures(function, (held, extra), out),
    {
        let mut taken = self.acquire();
        let out = function(taken.value_mut(), extra);
        taken.release();
        out
    }

    /// Takes the lock, runs `function` once on the guarded value, gives the lock back and
    /// returns what `function` returned.
    ///
    /// The call waits for as long as somebody else holds the lock. A `function` that asks
    /// for this same lock again waits for itself, and the call never returns.
    pub fn with_lock<F, U>(&self, function: F) -> (out: U) where F: FnOnce(&mut T) -> U
        requires
            forall|value: T| self.admits(value),
            forall|held: &mut T| call_requires(function, (held,)),
        ensures
            exists|held: &mut T| #[trigger] call_ensures(function, (held,), out),
    {
        self.visit_with(
            function,
            |held: &mut T, function: F| -> (out: U)
                requires
                    forall|held: &mut T| call_requires(function, (held,)),
                ensures
                    exists|inner: &mut T| #[trigger] call_ensures(function, (inner,), out),
                { function(held) }
        )
    }

    /// Two locks with their addresses: `std::ptr::from_ref` makes a pointer of each
    /// reference, and the pointer is read as a number. Nothing is claimed of the numbers
    /// but this: two references that are live at once and point at the same address point
    /// at the same lock, which is never of size zero.
    #[verifier::external_body]
    pub(crate) fn place_with<'a>(&'a self, other: &'a WithLock<T>) -> (placed: (
        Placed<'a, T>,
        Placed<'a, T>,
    ))
        ensures
            placed.0.lock() == self,
            placed.1.lock() == other,
            placed.0.address() == placed.1.address() ==> *self == *other,
    {
        (
            Placed { lock: self, at: std::ptr::from_ref(self) as usize },
            Placed { lock: other, at: std::ptr::from_ref(other) as usize },
        )
    }

    /// `lock_api::Mutex::get_mut` hands out the guarded value without locking: the
    /// exclusive borrow shows that nobody else can reach it. The value found is an admitted
    /// one for the reason given at `acquire`. The caller may leave any value, so the lock
    /// admits that value too from then on.
    #[verifier::external_body]
    pub(crate) fn get_mut(&mut self) -> (held: &mut T)
        ensures
            old(self).admits(*held),
            forall|value: T|
                final(self).admits(value) <==> old(self).admits(value) || value == *final(held),
    {
        self.data.get_mut()
    }

    /// `lock_api::Mutex::into_inner` unwraps the guarded value, which is an admitted one
    /// for the reason given at `acquire`.
    #[verifier::external_body]
    pub(crate) fn into_inner(self) -> (out: T)
        ensures
            self.admits(out),
    {
        self.data.into_inner()
    }
}

/// Takes the lock of `first`, then that of `second`, exchanges the two guarded values and
/// gives both locks back.
///
/// The locks are taken in the order of their addresses. Two different addresses are two
/// different locks, so the second lock is never one that this caller holds already, and
/// callers that all take their locks in this order cannot wait for each other in a ring
/// (`order::no_ring`).
pub(crate) fn trade_in_order<T>(first: Placed<'_, T>, second: Placed<'_, T>)
    requires
        first.address() < second.address(),
        forall|value: T| first.lock().admits(value) == second.lock().admits(value),
    ensures
        exists|one: &mut T, other: &mut T|
            first.lock().grants((Visit { found: *one, left: *final(one) }))
                && second.lock().grants((Visit { found: *other, left: *final(other) }))
                && #[trigger] call_ensures(trade::<T>, (other, one), ()),
        exists|one: Visit<T>, other: Visit<T>|
            first.lock().grants(one) && second.lock().grants(other) && #[trigger] trades(
                other,
                one,
            ),
{
    assert(first.lock() == first.lock && second.lock() == second.lock);
    first.lock.visit_with(
        second.lock,
        |held: &mut T, second: &WithLock<T>|
            requires
                second.admits(*held),
            ensures
                exists|other: &mut T|
                    second.grants((Visit { found: *other, left: *final(other) }))
                        && #[trigger] call_ensures(trade::<T>, (other, held), ()),
            { second.visit_with(held, trade) }
    )
}

} // verus!
