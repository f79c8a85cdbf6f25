//! A bounded pool of reusable values.
//!
//! A [`Pool`] keeps a stack of spare values and a factory that produces a
//! fresh value whenever no spare is available. Returned values are retained
//! only up to a fixed limit; excess returns are silently discarded, so the
//! pool sheds pressure instead of growing without bound.
//!
//! A [`SharedPool`] puts one `Pool` behind shared ownership and a
//! mutual-exclusion lock, so several handles — and several threads — can
//! acquire and release values concurrently. Its guarded acquisitions hand
//! back a [`Guard`], which returns the value to the pool on scope exit
//! unless the value is first extracted; a guard does not keep its pool
//! alive, and a guard that outlives every handle simply discards the value.
//!
//! The policy itself — what `push` and `pop` do to the spares — is stated
//! over sequences in [`pushed`] and [`popped`], and the laws it obeys are
//! proved in [`laws`].

pub mod factory;
pub mod guard;
pub mod laws;
pub mod pool;
pub mod shared;

pub use factory::{DefaultFactory, Factory, FnFactory};
pub use guard::Guard;
pub use pool::{popped, pushed, Pool};
pub use shared::SharedPool;
