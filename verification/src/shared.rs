//! The thread-shared pool: one [`Pool`] behind shared ownership and a
//! mutual-exclusion lock.
//!
//! Every operation holds the lock for the duration of a single delegated
//! pool step, so operations through any handle are serialized. The delegated
//! steps themselves are the verified operations of [`Pool`]; what the lock
//! and the shared ownership do is taken on trust from `parking_lot` and
//! `std::sync::Arc`.

use std::sync::Arc;

use vstd::prelude::*;

use crate::factory::{DefaultFactory, Factory};
use crate::guard::Guard;
use crate::pool::Pool;

verus! {

#[verifier::external_type_specification]
#[verifier::external_body]
#[verifier::reject_recursive_types(R)]
#[verifier::reject_recursive_types(T)]
pub struct ExMutex<R, T: ?Sized>(lock_api::Mutex<R, T>);

#[verifier::external_type_specification]
#[verifier::external_body]
pub struct ExRawMutex(parking_lot::RawMutex);

/// Holds a locked pool: the pool is reachable exclusively through this
/// value until it is dropped, which releases the lock. It wraps a
/// `parking_lot::MutexGuard`, whose declaration Verus refuses (its type
/// bounds name the `lock_api::RawMutex` trait), so Verus cannot look into
/// it.
#[verifier::external_body]
#[verifier::reject_recursive_types(T)]
#[verifier::reject_recursive_types(F)]
pub struct LockedPool<'a, T, F: Factory<T>> {
    inner: parking_lot::MutexGuard<'a, Pool<T, F>>,
}

/// Relies on parking_lot's `Mutex::new`: builds an unlocked mutex that
/// protects the given pool.
#[verifier::external_body]
pub(crate) fn new_mutex<T, F: Factory<T>>(pool: Pool<T, F>) -> parking_lot::Mutex<Pool<T, F>> {
    parking_lot::Mutex::new(pool)
}

/// Relies on parking_lot's `Mutex::lock`: blocks until no other holder is
/// left, then hands back the guard through which the pool can be reached
/// exclusively; dropping the guard releases the lock.
#[verifier::external_body]
pub(crate) fn lock_pool<'a, T, F: Factory<T>>(
    m: &'a parking_lot::Mutex<Pool<T, F>>,
) -> LockedPool<'a, T, F> {
    LockedPool { inner: m.lock() }
}

/// Relies on lock_api's `MutexGuard` implementing `DerefMut`: while the
/// guard is held, it gives exclusive access to the pool the mutex protects.
/// Which pool state is found there depends on every operation other handles
/// have performed, so nothing is promised of the value.
#[verifier::external_body]
pub(crate) fn guard_pool<'a, 'b, T, F: Factory<T>>(
    g: &'a mut LockedPool<'b, T, F>,
) -> &'a mut Pool<T, F> {
    &mut *g.inner
}

/// Relies on std's `Arc::clone`: the new handle refers to the same
/// allocation, so both handles reach one and the same locked pool.
#[verifier::external_body]
pub(crate) fn clone_handle<T, F: Factory<T>>(
    a: &Arc<parking_lot::Mutex<Pool<T, F>>>,
) -> (r: Arc<parking_lot::Mutex<Pool<T, F>>>)
    ensures
        r == *a,
{
    Arc::clone(a)
}

/// A thread-safe, shared-ownership wrapper around a [`Pool`].
///
/// Every method acquires the lock, performs one verified pool operation,
/// and releases the lock. Cloning yields a new handle to the same pool;
/// state mutated through one handle is seen through every other. Because
/// other handles may operate on the pool between any two calls, no method
/// can promise what state it will find — each is one serialized step whose
/// effect on the locked pool is that of the delegated [`Pool`] operation.
#[verifier::reject_recursive_types(T)]
#[verifier::reject_recursive_types(F)]
pub struct SharedPool<T, F: Factory<T> = DefaultFactory>(Arc<parking_lot::Mutex<Pool<T, F>>>);

impl<T, F: Factory<T>> SharedPool<T, F> {
    /// The shared allocation this handle refers to; handles with equal
    /// allocations operate on one pool.
    pub closed spec fn handle(&self) -> Arc<parking_lot::Mutex<Pool<T, F>>> {
        self.0
    }

    /// Builds a pool as [`Pool::new`] does and wraps it in shared,
    /// lock-protected storage.
    pub fn new(limit: usize, pre_allocate: usize, initialize: bool, factory: F) -> Self
        requires
            factory.pre(),
    {
        SharedPool(Arc::new(new_mutex(Pool::new(limit, pre_allocate, initialize, factory))))
    }

    /// Takes the most recently returned spare of the shared pool; when none
    /// is retained, a fresh value is produced by the pool's factory.
    pub fn pop(&self) -> T {
        let mut g = lock_pool(&self.0);
        let p = guard_pool(&mut g);
        p.pop()
    }

    /// As [`SharedPool::pop`], but the value is wrapped in a [`Guard`] that
    /// returns it to this pool when dropped.
    pub fn pop_guarded(&self) -> (g: Guard<T, F>)
        ensures
            g.has_value(),
    {
        let val = self.pop();
        Guard::attached(downgrade_handle(&self.0), val)
    }

    /// Takes the most recently returned spare of the shared pool, or
    /// reports that none is retained.
    pub fn try_pop(&self) -> Option<T> {
        let mut g = lock_pool(&self.0);
        let p = guard_pool(&mut g);
        p.try_pop()
    }

    /// As [`SharedPool::try_pop`], but a taken value is wrapped in a
    /// [`Guard`] that returns it to this pool when dropped.
    pub fn try_pop_guarded(&self) -> (g: Option<Guard<T, F>>)
        ensures
            g is Some ==> g.unwrap().has_value(),
    {
        match self.try_pop() {
            Some(val) => Some(Guard::attached(downgrade_handle(&self.0), val)),
            None => None,
        }
    }

    /// Returns a value to the shared pool, which discards it silently when
    /// the limit is already reached.
    pub fn push(&self, val: T) {
        let mut g = lock_pool(&self.0);
        let p = guard_pool(&mut g);
        p.push(val);
    }

    /// Discards every spare the shared pool retains; the limit is unchanged.
    pub fn clear(&self) {
        let mut g = lock_pool(&self.0);
        let p = guard_pool(&mut g);
        p.clear();
    }

    /// The number of spares retained at the moment the lock was held.
    pub fn len(&self) -> usize {
        let mut g = lock_pool(&self.0);
        let p = guard_pool(&mut g);
        p.len()
    }

    /// Whether no spare was retained at the moment the lock was held.
    pub fn is_empty(&self) -> bool {
        let mut g = lock_pool(&self.0);
        let p = guard_pool(&mut g);
        p.is_empty()
    }

    /// The greatest number of spares the shared pool retains.
    pub fn limit(&self) -> usize {
        let mut g = lock_pool(&self.0);
        let p = guard_pool(&mut g);
        p.limit()
    }

    /// The shared pool's limit and spare count, rendered for debugging.
    pub fn describe(&self) -> String {
        crate::pool::format_description("SharedPool", self.limit(), self.len())
    }
}

impl<T: Default> SharedPool<T, DefaultFactory> {
    /// Builds an empty shared pool whose factory is `T::default`.
    pub fn new_with_default(limit: usize) -> Self {
        SharedPool(Arc::new(new_mutex(Pool::new_with_default(limit))))
    }
}

impl<T, F: Factory<T>> Clone for SharedPool<T, F> {
    /// A new handle to the same shared pool, not a copy of its contents.
    fn clone(&self) -> (r: Self)
        ensures
            r.handle() == self.handle(),
    {
        SharedPool(clone_handle(&self.0))
    }
}

/// A non-owning handle to a shared pool: it does not keep the pool alive,
/// and can only be asked for an owning handle while the pool still exists.
/// It holds a `std::sync::Weak`, which Verus cannot look into.
#[verifier::external_body]
#[verifier::reject_recursive_types(T)]
#[verifier::reject_recursive_types(F)]
pub struct WeakShared<T, F: Factory<T>> {
    ptr: std::sync::Weak<parking_lot::Mutex<Pool<T, F>>>,
}

/// Relies on std's `Arc::downgrade`: yields a non-owning handle to the same
/// allocation, which does not extend the pool's lifetime.
#[verifier::external_body]
pub(crate) fn downgrade_handle<T, F: Factory<T>>(
    a: &Arc<parking_lot::Mutex<Pool<T, F>>>,
) -> WeakShared<T, F> {
    WeakShared { ptr: Arc::downgrade(a) }
}

/// Relies on std's `Weak::upgrade`: yields an owning handle while the pool
/// still exists, and nothing once every owning handle has been dropped.
/// Which of the two happens depends on the rest of the program, so nothing
/// is promised of the outcome.
#[verifier::external_body]
pub(crate) fn upgrade_handle<T, F: Factory<T>>(
    w: &WeakShared<T, F>,
) -> Option<Arc<parking_lot::Mutex<Pool<T, F>>>> {
    w.ptr.upgrade()
}

} // verus!
