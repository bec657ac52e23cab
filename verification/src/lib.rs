//! Closure-scoped locking, and a cell built on it.
//!
//! [`WithLock`] guards a value with a mutex and hands it out only for the length of one
//! callback, so no caller can keep the lock by accident. [`MutexCell`] offers the
//! operations of a cell (`get`, `set`, `replace`, `swap`, `take`) on top of it, each as a
//! single stay under the lock.
//!
//! Several threads may share a lock, so what a caller finds under it is not a function of
//! what that caller did before. The contracts therefore speak of [`visit::Visit`]s: every
//! operation is one visit, which finds a value that the lock admits and leaves one that it
//! admits. What follows from that for a whole run is proved in [`history`], and why two
//! cells that exchange their values cannot block each other for good in [`order`].
//!
//! The mutex is parking_lot's, which gives the lock back when a holder panics and keeps
//! no record of it. A cell may admit fewer values than its type has, because each of its
//! operations changes the value in one step; [`WithLock::with_lock`] runs any callback,
//! and is for locks that admit every value. What is taken on trust of the mutex stands in
//! [`lock`], each piece with the call it makes.
pub mod visit;

pub mod order;

pub mod lock;

pub mod cell;

pub mod history;

pub use cell::MutexCell;
pub use lock::WithLock;
