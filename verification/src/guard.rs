//! The scoped-acquisition guard: a handle to one value taken from a shared
//! pool, returning it there automatically when the scope ends.

use vstd::prelude::*;

use crate::factory::{DefaultFactory, Factory};
use crate::shared::{guard_pool, lock_pool, upgrade_handle, WeakShared};

verus! {

/// A scoped handle to one pooled value.
///
/// While the guard is alive it holds the acquired value; the value sits
/// either here or among the pool's spares, never in both places. On scope
/// exit the value is returned to the pool it came from, if that pool still
/// exists — unless it was first extracted with [`Guard::into_inner`], which
/// forfeits the automatic return. The guard's reference back to the pool is
/// non-owning: an outstanding guard does not keep the pool alive.
#[verifier::reject_recursive_types(T)]
#[verifier::reject_recursive_types(F)]
pub struct Guard<T, F: Factory<T> = DefaultFactory> {
    pool: WeakShared<T, F>,
    val: Option<T>,
}

impl<T, F: Factory<T>> Guard<T, F> {
    /// Whether the guard still holds its value. Every guard handed out by a
    /// pool does; only the end-of-scope return takes the value out.
    pub closed spec fn has_value(&self) -> bool {
        self.val is Some
    }

    /// The held value.
    pub closed spec fn value(&self) -> T {
        self.val->0
    }

    /// The non-owning reference back to the pool the value came from.
    pub closed spec fn pool_link(&self) -> WeakShared<T, F> {
        self.pool
    }

    /// Wraps a value just taken from the shared pool that `pool` refers to.
    pub(crate) fn attached(pool: WeakShared<T, F>, val: T) -> (g: Self)
        ensures
            g.has_value(),
            g.value() == val,
    {
        Guard { pool, val: Some(val) }
    }

    /// Extracts the value, forfeiting the automatic return: the guard is
    /// consumed and the pool never sees the value again.
    pub fn into_inner(self) -> (r: T)
        requires
            self.has_value(),
        ensures
            r == self.value(),
    {
        let mut this = self;
        let mut val: Option<T> = None;
        std::mem::swap(&mut val, &mut this.val);
        val.unwrap()
    }

    /// The held value, for reading.
    pub fn get(&self) -> (r: &T)
        requires
            self.has_value(),
        ensures
            *r == self.value(),
    {
        match &self.val {
            Some(v) => v,
            None => vstd::pervasive::unreached(),
        }
    }

    /// The held value, for reading and writing; the guard keeps holding
    /// whatever the caller leaves behind the reference.
    pub fn get_mut(&mut self) -> (r: &mut T)
        requires
            old(self).has_value(),
        ensures
            *r == old(self).value(),
            final(self).has_value(),
            final(self).value() == *final(r),
            final(self).pool_link() == old(self).pool_link(),
    {
        match &mut self.val {
            Some(v) => v,
            None => vstd::pervasive::unreached(),
        }
    }
}

/// Returns one value to the pool a guard came from: once every owning handle
/// has been dropped the value is simply discarded; otherwise the pool's lock
/// is taken and the value pushed back, subject to the capacity limit.
fn return_to_pool<T, F: Factory<T>>(w: &WeakShared<T, F>, val: T) {
    match upgrade_handle(w) {
        Some(arc) => {
            let mut g = lock_pool(&arc);
            let p = guard_pool(&mut g);
            p.push(val);
        },
        None => {},
    }
}

impl<T, F: Factory<T>> Drop for Guard<T, F> {
    /// Runs on every exit path. The returning is done by the verified
    /// `return_to_pool`; this body only takes the value out, if it is still
    /// held, and hands it over. Verus requires a `Drop` implementation to be
    /// free of unwinding, which cannot be established for a push that may
    /// allocate, so the body itself is taken on trust.
    #[verifier::external_body]
    fn drop(&mut self)
        opens_invariants none
        no_unwind
    {
        if let Some(val) = self.val.take() {
            return_to_pool(&self.pool, val);
        }
    }
}

} // verus!
