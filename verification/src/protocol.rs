//! The buffer protocol seen as a sequence of operations, and the laws the
//! pipeline rests on: no item is lost or duplicated, occupancy stays within
//! capacity, a producer blocked on a full buffer is unblocked by the next
//! pop, and the delivered multiset does not depend on how the operations
//! interleave.
//!
//! An operation trace records, in order, the effects that the worker threads
//! apply to one buffer while holding its lock. The transitions here are
//! exactly those of [`crate::shared_buffer::Buffer::try_push`] and
//! [`crate::shared_buffer::Buffer::try_pop`]: a push on a full buffer and a
//! pop on an empty one change nothing.

use vstd::prelude::*;
use vstd::multiset::Multiset;
use crate::capacity;

verus! {

/// One effect applied to the buffer under its lock.
pub enum BufferOp<T> {
    /// A producer appended this item (effective only below capacity).
    Push(T),
    /// A consumer removed the newest item (effective only when non-empty).
    Pop,
}

/// The buffer contents after a trace of operations, starting from empty.
pub open spec fn state_after<T>(ops: Seq<BufferOp<T>>) -> Seq<T>
    decreases ops.len(),
{
    if ops.len() == 0 {
        Seq::empty()
    } else {
        let prev = state_after(ops.drop_last());
        match ops.last() {
            BufferOp::Push(v) => if prev.len() < capacity() {
                prev.push(v)
            } else {
                prev
            },
            BufferOp::Pop => if prev.len() > 0 {
                prev.drop_last()
            } else {
                prev
            },
        }
    }
}

/// The multiset of items that entered the buffer along a trace.
pub open spec fn pushed_of<T>(ops: Seq<BufferOp<T>>) -> Multiset<T>
    decreases ops.len(),
{
    if ops.len() == 0 {
        Multiset::empty()
    } else {
        let prev = pushed_of(ops.drop_last());
        match ops.last() {
            BufferOp::Push(v) => if state_after(ops.drop_last()).len() < capacity() {
                prev.insert(v)
            } else {
                prev
            },
            BufferOp::Pop => prev,
        }
    }
}

/// The multiset of items the buffer handed out along a trace.
pub open spec fn popped_of<T>(ops: Seq<BufferOp<T>>) -> Multiset<T>
    decreases ops.len(),
{
    if ops.len() == 0 {
        Multiset::empty()
    } else {
        let prev = popped_of(ops.drop_last());
        match ops.last() {
            BufferOp::Push(_) => prev,
            BufferOp::Pop => if state_after(ops.drop_last()).len() > 0 {
                prev.insert(state_after(ops.drop_last()).last())
            } else {
                prev
            },
        }
    }
}

/// No loss, no duplication: along any trace, every item that entered the
/// buffer is either still inside it or was handed out exactly once — the
/// items still pending plus the items popped are, as a multiset, exactly the
/// items pushed.
pub proof fn lemma_no_loss_no_duplication<T>(ops: Seq<BufferOp<T>>)
    ensures
        state_after(ops).to_multiset().add(popped_of(ops)) =~= pushed_of(ops),
    decreases ops.len(),
{
    broadcast use vstd::seq_lib::group_to_multiset_ensures;
    broadcast use vstd::multiset::group_multiset_axioms;

    if ops.len() == 0 {
        assert(state_after(ops).to_multiset() =~= Multiset::<T>::empty());
    } else {
        let prefix = ops.drop_last();
        lemma_no_loss_no_duplication(prefix);
        let prev = state_after(prefix);
        match ops.last() {
            BufferOp::Push(v) => {
                if prev.len() < capacity() {
                    assert(prev.push(v).to_multiset() =~= prev.to_multiset().insert(v));
                }
            },
            BufferOp::Pop => {
                if prev.len() > 0 {
                    let i = prev.len() - 1;
                    assert(prev.remove(i as int) =~= prev.drop_last());
                    assert(prev.remove(i as int).to_multiset()
                        =~= prev.to_multiset().remove(prev.last()));
                    assert(prev.contains(prev.last()));
                    assert(prev.to_multiset().count(prev.last()) > 0);
                }
            },
        }
    }
}

/// Bounded occupancy: no trace of operations ever drives the buffer past
/// its capacity.
pub proof fn lemma_bounded_occupancy<T>(ops: Seq<BufferOp<T>>)
    ensures
        state_after(ops).len() <= capacity(),
    decreases ops.len(),
{
    if ops.len() > 0 {
        lemma_bounded_occupancy(ops.drop_last());
    }
}

/// Once the buffer has drained, the multiset of items handed out equals the
/// multiset of items pushed: every pushed item was delivered to exactly one
/// consumer.
pub proof fn lemma_drained_delivers_everything<T>(ops: Seq<BufferOp<T>>)
    requires
        state_after(ops).len() == 0,
    ensures
        popped_of(ops) =~= pushed_of(ops),
{
    broadcast use vstd::seq_lib::group_to_multiset_ensures;
    broadcast use vstd::multiset::group_multiset_axioms;

    lemma_no_loss_no_duplication(ops);
    assert(state_after(ops).to_multiset() =~= Multiset::<T>::empty());
}

/// Liveness under a full buffer: when the buffer sits at capacity — the
/// state in which a push is refused and its producer waits — the very next
/// pop leaves room, and a push right after it takes effect.
pub proof fn lemma_unblocked_by_next_pop<T>(ops: Seq<BufferOp<T>>, v: T)
    requires
        state_after(ops).len() == capacity(),
    ensures
        state_after(ops.push(BufferOp::Pop)).len() < capacity(),
        state_after(ops.push(BufferOp::Pop).push(BufferOp::Push(v)))
            == state_after(ops.push(BufferOp::Pop)).push(v),
{
    let after_pop = ops.push(BufferOp::Pop);
    assert(after_pop.drop_last() =~= ops);
    assert(after_pop.push(BufferOp::Push(v)).drop_last() =~= after_pop);
}

/// Scale-up equivalence: two runs that push the same multiset of items and
/// both drain the buffer hand out the same multiset of items, however many
/// workers produced the traces and however the operations interleaved.
pub proof fn lemma_scale_up_equivalence<T>(ops1: Seq<BufferOp<T>>, ops2: Seq<BufferOp<T>>)
    requires
        pushed_of(ops1) == pushed_of(ops2),
        state_after(ops1).len() == 0,
        state_after(ops2).len() == 0,
    ensures
        popped_of(ops1) =~= popped_of(ops2),
{
    lemma_drained_delivers_everything(ops1);
    lemma_drained_delivers_everything(ops2);
}

} // verus!
