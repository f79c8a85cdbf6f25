//! The factory abstraction: a zero-argument producer of pooled values.
//!
//! A pool invokes its factory whenever a value is demanded and no spare is
//! available. Two producers are provided: [`FnFactory`] adapts any
//! zero-argument callable (a plain closure, or a boxed one supplied at run
//! time), and [`DefaultFactory`] produces values through `T::default`.

use vstd::prelude::*;

verus! {

/// A zero-argument producer of fresh values.
pub trait Factory<T>: Sized {
    /// When the producer may be invoked.
    spec fn pre(&self) -> bool;

    /// What holds of every value the producer can hand back.
    spec fn post(&self, v: T) -> bool;

    /// Produce one fresh value.
    fn make(&self) -> (r: T)
        requires
            self.pre(),
        ensures
            self.post(r),
    ;
}

/// Adapts any zero-argument callable into a [`Factory`]. A caller whose
/// producer is only known at run time wraps a boxed callable here.
pub struct FnFactory<F>(pub F);

impl<T, F: Fn() -> T> Factory<T> for FnFactory<F> {
    open spec fn pre(&self) -> bool {
        call_requires(self.0, ())
    }

    open spec fn post(&self, v: T) -> bool {
        call_ensures(self.0, (), v)
    }

    fn make(&self) -> (r: T) {
        (self.0)()
    }
}

/// Produces values through `T::default`.
pub struct DefaultFactory;

impl<T: Default> Factory<T> for DefaultFactory {
    open spec fn pre(&self) -> bool {
        true
    }

    open spec fn post(&self, v: T) -> bool {
        call_ensures(T::default, (), v)
    }

    fn make(&self) -> (r: T) {
        T::default()
    }
}

} // verus!
