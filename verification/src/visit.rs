//! One stay under a lock, and the things a cell does during such a stay.
//!
//! Each of them puts the new value in place in one step. `read`, `exchange` and `trade`
//! cannot unwind. `store` drops the value it overwrites, which may unwind where that
//! value's destructor does, but only after the new value is in place.
use vstd::prelude::*;

verus! {

/// One stay under a lock: the value the holder found there and the value it left behind.
pub struct Visit<T> {
    pub found: T,
    pub left: T,
}

/// The visit copies the value out and leaves it as it was.
pub open spec fn reads<T>(visit: Visit<T>, out: T) -> bool {
    out == visit.found && visit.left == visit.found
}

/// The visit leaves `value`, whatever it found.
pub open spec fn stores<T>(visit: Visit<T>, value: T) -> bool {
    visit.left == value
}

/// The visit leaves `value` and carries away what it found.
pub open spec fn replaces<T>(visit: Visit<T>, value: T, prior: T) -> bool {
    stores(visit, value) && prior == visit.found
}

/// Two visits, each to a place of its own, leave in each place what the other found.
pub open spec fn trades<T>(one: Visit<T>, other: Visit<T>) -> bool {
    one.left == other.found && other.left == one.found
}

/// Copies the held value.
pub fn read<T: Copy>(held: &T) -> (out: T)
    ensures
        reads((Visit { found: *held, left: *held }), out),
    no_unwind
{
    *held
}

/// Overwrites the held value. The new value is in place before the old one is dropped.
pub fn store<T>(held: &mut T, value: T)
    ensures
        stores((Visit { found: *old(held), left: *final(held) }), value),
{
    let mut carried = value;
    std::mem::swap(held, &mut carried);
}

/// Puts `value` in place of the held value and returns the latter.
pub fn exchange<T>(held: &mut T, value: T) -> (prior: T)
    ensures
        replaces((Visit { found: *old(held), left: *final(held) }), value, prior),
    no_unwind
{
    let mut carried = value;
    std::mem::swap(held, &mut carried);
    carried
}

/// Exchanges two held values.
pub fn trade<T>(one: &mut T, other: &mut T)
    ensures
        trades(
            (Visit { found: *old(one), left: *final(one) }),
            (Visit { found: *old(other), left: *final(other) }),
        ),
    no_unwind
{
    std::mem::swap(one, other);
}

} // verus!
