//! The single-owner bounded pool.

use vstd::prelude::*;

use crate::factory::{DefaultFactory, Factory};

verus! {

/// The effect of returning one value to a stack of spares bounded by `limit`:
/// the value is appended when there is room, and discarded otherwise.
pub open spec fn pushed<T>(s: Seq<T>, limit: nat, v: T) -> Seq<T> {
    if s.len() < limit {
        s.push(v)
    } else {
        s
    }
}

/// The effect of taking one spare from a stack of spares: the most recently
/// added one is removed; an empty stack is left as it is.
pub open spec fn popped<T>(s: Seq<T>) -> Seq<T> {
    if s.len() > 0 {
        s.drop_last()
    } else {
        s
    }
}

/// Relies on std's `format!`: renders the given name, limit and spare count
/// as `Debug` output would. Verus cannot verify `core::fmt`, so the
/// formatting itself is trusted.
#[verifier::external_body]
pub(crate) fn format_description(kind: &str, limit: usize, len: usize) -> String {
    format!("{} with limit {} and size {}", kind, limit, len)
}

/// A single-owner bounded cache of reusable values.
///
/// Spares are kept as a stack: the value returned most recently is handed out
/// first. At most `limit` spares are retained; a value pushed onto a full
/// pool is silently discarded. When a value is demanded and no spare is
/// available, the factory produces a fresh one.
pub struct Pool<T, F: Factory<T> = DefaultFactory> {
    cached: Vec<T>,
    limit: usize,
    factory: F,
}

#[verifier::type_invariant]
spec fn pool_wf<T, F: Factory<T>>(p: &Pool<T, F>) -> bool {
    p.factory.pre()
}

impl<T, F: Factory<T>> Pool<T, F> {
    /// The spares currently retained, oldest first.
    pub closed spec fn spares(&self) -> Seq<T> {
        self.cached@
    }

    /// The greatest number of spares the pool retains.
    pub closed spec fn spec_limit(&self) -> nat {
        self.limit as nat
    }

    /// The producer of fresh values.
    pub closed spec fn spec_factory(&self) -> F {
        self.factory
    }

    /// Builds a pool that retains at most `limit` spares. Storage is
    /// reserved for `pre_allocate` values; when `initialize` is set, that
    /// many values are produced up front and stored as spares, even beyond
    /// `limit` — the limit governs what `push` accepts, not construction.
    pub fn new(limit: usize, pre_allocate: usize, initialize: bool, factory: F) -> (r: Self)
        requires
            factory.pre(),
        ensures
            r.spec_limit() == limit,
            r.spec_factory() == factory,
            initialize ==> r.spares().len() == pre_allocate,
            initialize ==> (forall|i: int|
                0 <= i < pre_allocate ==> factory.post(#[trigger] r.spares()[i])),
            !initialize ==> r.spares() == Seq::<T>::empty(),
    {
        let mut cached: Vec<T> = Vec::with_capacity(pre_allocate);
        if initialize {
            let mut i: usize = 0;
            while i < pre_allocate
                invariant
                    i <= pre_allocate,
                    cached@.len() == i,
                    forall|j: int| 0 <= j < i ==> factory.post(#[trigger] cached@[j]),
                    factory.pre(),
                decreases pre_allocate - i,
            {
                cached.push(factory.make());
                i = i + 1;
            }
        }
        Pool { cached, limit, factory }
    }

    /// Takes the most recently returned spare; when none is retained, a
    /// fresh value is produced by the factory.
    pub fn pop(&mut self) -> (r: T)
        ensures
            final(self).spec_limit() == old(self).spec_limit(),
            final(self).spec_factory() == old(self).spec_factory(),
            final(self).spares() == popped(old(self).spares()),
            old(self).spares().len() > 0 ==> r == old(self).spares().last(),
            old(self).spares().len() == 0 ==> old(self).spec_factory().post(r),
    {
        proof {
            use_type_invariant(&*self);
        }
        let mut cached: Vec<T> = Vec::new();
        std::mem::swap(&mut cached, &mut self.cached);
        let r = match cached.pop() {
            Some(val) => val,
            None => self.factory.make(),
        };
        std::mem::swap(&mut cached, &mut self.cached);
        r
    }

    /// Takes the most recently returned spare, or reports that none is
    /// retained. An empty pool is left unchanged.
    pub fn try_pop(&mut self) -> (r: Option<T>)
        ensures
            final(self).spec_limit() == old(self).spec_limit(),
            final(self).spec_factory() == old(self).spec_factory(),
            final(self).spares() == popped(old(self).spares()),
            old(self).spares().len() > 0 ==> r == Some(old(self).spares().last()),
            old(self).spares().len() == 0 ==> r is None,
    {
        proof {
            use_type_invariant(&*self);
        }
        let mut cached: Vec<T> = Vec::new();
        std::mem::swap(&mut cached, &mut self.cached);
        let r = cached.pop();
        std::mem::swap(&mut cached, &mut self.cached);
        r
    }

    /// Returns a value to the pool. When `limit` spares are already
    /// retained, the value is silently discarded: pool pressure sheds excess
    /// capacity rather than growing without bound.
    pub fn push(&mut self, val: T)
        ensures
            final(self).spec_limit() == old(self).spec_limit(),
            final(self).spec_factory() == old(self).spec_factory(),
            final(self).spares() == pushed(old(self).spares(), old(self).spec_limit(), val),
    {
        proof {
            use_type_invariant(&*self);
        }
        if self.cached.len() < self.limit {
            let mut cached: Vec<T> = Vec::new();
            std::mem::swap(&mut cached, &mut self.cached);
            cached.push(val);
            std::mem::swap(&mut cached, &mut self.cached);
        }
    }

    /// Discards every retained spare; the limit is unchanged.
    pub fn clear(&mut self)
        ensures
            final(self).spec_limit() == old(self).spec_limit(),
            final(self).spec_factory() == old(self).spec_factory(),
            final(self).spares() == Seq::<T>::empty(),
    {
        proof {
            use_type_invariant(&*self);
        }
        let mut cached: Vec<T> = Vec::new();
        std::mem::swap(&mut cached, &mut self.cached);
        cached.clear();
        std::mem::swap(&mut cached, &mut self.cached);
    }

    /// The number of spares currently retained.
    pub fn len(&self) -> (r: usize)
        ensures
            r == self.spares().len(),
    {
        self.cached.len()
    }

    /// Whether no spare is currently retained.
    pub fn is_empty(&self) -> (r: bool)
        ensures
            r == (self.spares().len() == 0),
    {
        self.cached.is_empty()
    }

    /// The greatest number of spares the pool retains.
    pub fn limit(&self) -> (r: usize)
        ensures
            r == self.spec_limit(),
    {
        self.limit
    }

    /// The pool's limit and spare count, rendered for debugging.
    pub fn describe(&self) -> String {
        format_description("Pool", self.limit(), self.len())
    }
}

impl<T: Default> Pool<T, DefaultFactory> {
    /// Builds an empty pool whose factory is `T::default`.
    pub fn new_with_default(limit: usize) -> (r: Self)
        ensures
            r.spec_limit() == limit,
            r.spec_factory() == DefaultFactory,
            r.spares() == Seq::<T>::empty(),
    {
        Self::new(limit, 0, false, DefaultFactory)
    }
}

} // verus!
