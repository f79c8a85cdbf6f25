//! Laws of the bounded-pool policy, stated over the model of the spares
//! stack and proved once for every pool, whatever its factory.

use vstd::prelude::*;

use crate::pool::{popped, pushed};

verus! {

/// One step a caller can take against a pool's stack of spares.
pub enum PoolOp<T> {
    /// Return a value to the pool.
    Push(T),
    /// Take a value from the pool.
    Pop,
}

/// The spares after one operation.
pub open spec fn apply_op<T>(s: Seq<T>, limit: nat, op: PoolOp<T>) -> Seq<T> {
    match op {
        PoolOp::Push(v) => pushed(s, limit, v),
        PoolOp::Pop => popped(s),
    }
}

/// The spares after a sequence of operations, applied first to last.
pub open spec fn apply_ops<T>(s: Seq<T>, limit: nat, ops: Seq<PoolOp<T>>) -> Seq<T>
    decreases ops.len(),
{
    if ops.len() == 0 {
        s
    } else {
        apply_ops(apply_op(s, limit, ops.first()), limit, ops.drop_first())
    }
}

/// A sequence of `push` operations, one per value, first to last.
pub open spec fn pushes<T>(vals: Seq<T>) -> Seq<PoolOp<T>> {
    vals.map_values(|v| PoolOp::Push(v))
}

/// Law: under any sequence of `pop` and `push` operations, a pool whose
/// spare count is within its limit never comes to retain more than `limit`
/// spares; in particular no `push` raises the count beyond the limit.
pub proof fn lemma_ops_never_exceed_limit<T>(s: Seq<T>, limit: nat, ops: Seq<PoolOp<T>>)
    requires
        s.len() <= limit,
    ensures
        apply_ops(s, limit, ops).len() <= limit,
    decreases ops.len(),
{
    if ops.len() > 0 {
        let s1 = apply_op(s, limit, ops.first());
        assert(s1.len() <= limit);
        lemma_ops_never_exceed_limit(s1, limit, ops.drop_first());
    }
}

/// Law: taking the most recent spare and immediately returning the same
/// value restores the spares exactly, count included — the round trip of
/// acquire and release on a pool that retains at least one spare.
pub proof fn lemma_pop_push_round_trip<T>(s: Seq<T>, limit: nat)
    requires
        0 < s.len() <= limit,
    ensures
        pushed(popped(s), limit, s.last()) == s,
{
    assert(pushed(popped(s), limit, s.last()) =~= s);
}

/// Returning values to a pool fills it up to its limit and no further: the
/// spare count afterwards is the smaller of the limit and the count of what
/// was retained plus what was returned.
pub proof fn lemma_pushes_fill_to_limit<T>(s: Seq<T>, limit: nat, vals: Seq<T>)
    requires
        s.len() <= limit,
    ensures
        apply_ops(s, limit, pushes(vals)).len() == if s.len() + vals.len() <= limit {
            s.len() + vals.len()
        } else {
            limit
        },
    decreases vals.len(),
{
    if vals.len() > 0 {
        let s1 = pushed(s, limit, vals.first());
        assert(pushes(vals).first() == PoolOp::Push(vals.first()));
        assert(pushes(vals).drop_first() =~= pushes(vals.drop_first()));
        lemma_pushes_fill_to_limit(s1, limit, vals.drop_first());
    }
}

/// Law: returning `n` values, `n >= limit`, to an initially empty pool with
/// limit `limit` retains exactly `limit` spares; the excess is discarded.
pub proof fn lemma_overfill_retains_exactly_limit<T>(limit: nat, vals: Seq<T>)
    requires
        vals.len() >= limit,
    ensures
        apply_ops(Seq::<T>::empty(), limit, pushes(vals)).len() == limit,
{
    lemma_pushes_fill_to_limit(Seq::<T>::empty(), limit, vals);
}

} // verus!
