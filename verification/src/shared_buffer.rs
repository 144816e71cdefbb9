//! The bounded buffer at the heart of the pipeline: a fixed-capacity
//! container of pending work items together with a live-producer count.
//!
//! The buffer itself is a plain sequential structure; [`SharedBuffer`] wraps
//! it in a mutex with two condition variables so that producer and consumer
//! threads can block on it. All decisions the workers take while holding the
//! lock are made by the verified methods here ([`Buffer::try_push`],
//! [`Buffer::try_pop`]); the callers only perform the actual waiting and
//! signalling.

use vstd::prelude::*;
use crate::ARRAY_SIZE;
use crate::capacity;

verus! {

/// Error returned by [`Buffer::push`] when the buffer is already full.
#[derive(Debug, PartialEq, Eq, Structural)]
pub struct BufferFullError;

/// What a producer's non-blocking push attempt decided.
#[derive(Debug, PartialEq)]
pub enum PushAttempt<T> {
    /// The item was appended; a waiting consumer should be woken.
    Pushed,
    /// The buffer is full; the item is handed back and the producer must
    /// wait until a consumer pops.
    MustWait(T),
}

/// What a consumer's non-blocking pop attempt decided.
#[derive(Debug, PartialEq)]
pub enum PopAttempt<T> {
    /// An item was removed; a waiting producer should be woken.
    Item(T),
    /// The buffer is empty but producers are still live: wait for a push.
    MustWait,
    /// The buffer is empty and no producer is live: no item will ever
    /// arrive, so the consumer terminates.
    Finished,
}

/// A fixed-capacity buffer of pending work items plus a count of the
/// producers that are currently live (registered but not yet finished).
///
/// Items are delivered in last-in-first-out order; delivery order carries no
/// meaning for the pipeline, only that no item is lost or duplicated.
#[derive(Debug)]
pub struct Buffer<T> {
    data: Vec<T>,
    running_producers: usize,
}

impl<T> View for Buffer<T> {
    type V = Seq<T>;

    closed spec fn view(&self) -> Seq<T> {
        self.data@
    }
}

impl<T> Buffer<T> {
    /// The number of producers currently registered.
    pub closed spec fn producers(self) -> nat {
        self.running_producers as nat
    }

    /// Bounded occupancy: the buffer holds at most `capacity()` items.
    /// [`Buffer::new`] establishes it and every method preserves it, so it
    /// holds of every buffer at every observable instant.
    pub closed spec fn wf(self) -> bool {
        self.data@.len() <= capacity()
    }

    /// The number of producers currently registered, as the workers read it.
    pub fn running_producers(&self) -> (r: usize)
        ensures
            r as nat == self.producers(),
    {
        self.running_producers
    }

    /// Creates an empty buffer with no live producers.
    pub fn new() -> (b: Buffer<T>)
        ensures
            b@ == Seq::<T>::empty(),
            b.producers() == 0,
            b.wf(),
    {
        Buffer { data: Vec::new(), running_producers: 0 }
    }

    /// Removes and returns the most recently pushed item, or `None` when the
    /// buffer is empty.
    pub fn pop(&mut self) -> (r: Option<T>)
        ensures
            old(self).wf() ==> final(self).wf(),
            final(self).producers() == old(self).producers(),
            old(self)@.len() == 0 ==> r is None && final(self)@ == old(self)@,
            old(self)@.len() > 0 ==> r == Some(old(self)@.last())
                && final(self)@ == old(self)@.drop_last(),
    {
        self.data.pop()
    }

    /// Appends an item, or reports [`BufferFullError`] when the buffer
    /// already holds `capacity()` items, leaving it unchanged.
    pub fn push(&mut self, value: T) -> (r: Result<(), BufferFullError>)
        ensures
            old(self).wf() ==> final(self).wf(),
            final(self).producers() == old(self).producers(),
            old(self)@.len() < capacity() ==> r is Ok
                && final(self)@ == old(self)@.push(value),
            old(self)@.len() == capacity() ==> r == Err::<(), BufferFullError>(BufferFullError)
                && final(self)@ == old(self)@,
    {
        if self.data.len() == ARRAY_SIZE {
            Err(BufferFullError)
        } else {
            self.data.push(value);
            Ok(())
        }
    }

    /// Whether the buffer holds no items.
    pub fn is_empty(&self) -> (r: bool)
        ensures
            r == (self@.len() == 0),
    {
        self.data.len() == 0
    }

    /// Whether the buffer holds `capacity()` items, so that a push would be
    /// refused.
    pub fn is_full(&self) -> (r: bool)
        ensures
            r == (self@.len() == capacity()),
    {
        self.data.len() == ARRAY_SIZE
    }

    /// Registers one more live producer. Called once by each producer worker
    /// before it does any other work.
    pub fn register_producer(&mut self)
        requires
            old(self).producers() < usize::MAX,
        ensures
            old(self).wf() ==> final(self).wf(),
            final(self)@ == old(self)@,
            final(self).producers() == old(self).producers() + 1,
    {
        self.running_producers = self.running_producers + 1;
    }

    /// Deregisters one live producer and returns how many remain. Called
    /// exactly once by each producer worker as its last action; when the
    /// result is zero the caller must wake every waiting consumer.
    pub fn deregister_producer(&mut self) -> (remaining: usize)
        requires
            old(self).producers() > 0,
        ensures
            old(self).wf() ==> final(self).wf(),
            final(self)@ == old(self)@,
            final(self).producers() == old(self).producers() - 1,
            remaining as nat == final(self).producers(),
    {
        self.running_producers = self.running_producers - 1;
        self.running_producers
    }

    /// The producer's decision step, taken while holding the buffer's lock:
    /// append the item if there is room, otherwise hand it back so the
    /// caller can wait for a consumer to pop.
    pub fn try_push(&mut self, value: T) -> (r: PushAttempt<T>)
        ensures
            old(self).wf() ==> final(self).wf(),
            final(self).producers() == old(self).producers(),
            old(self)@.len() < capacity() ==> r is Pushed
                && final(self)@ == old(self)@.push(value),
            old(self)@.len() == capacity() ==> r == PushAttempt::MustWait(value)
                && final(self)@ == old(self)@,
    {
        if self.data.len() == ARRAY_SIZE {
            PushAttempt::MustWait(value)
        } else {
            self.data.push(value);
            PushAttempt::Pushed
        }
    }

    /// The consumer's decision step, taken while holding the buffer's lock:
    /// take the newest item if there is one; on an empty buffer, wait while
    /// any producer is still live, and terminate once none is.
    pub fn try_pop(&mut self) -> (r: PopAttempt<T>)
        ensures
            old(self).wf() ==> final(self).wf(),
            final(self).producers() == old(self).producers(),
            old(self)@.len() > 0 ==> r == PopAttempt::Item(old(self)@.last())
                && final(self)@ == old(self)@.drop_last(),
            old(self)@.len() == 0 && old(self).producers() > 0 ==> r is MustWait
                && final(self)@ == old(self)@,
            old(self)@.len() == 0 && old(self).producers() == 0 ==> r is Finished
                && final(self)@ == old(self)@,
    {
        if self.data.len() == 0 {
            if self.running_producers == 0 {
                PopAttempt::Finished
            } else {
                PopAttempt::MustWait
            }
        } else {
            match self.data.pop() {
                Some(value) => PopAttempt::Item(value),
                None => PopAttempt::MustWait,
            }
        }
    }
}

#[verifier::external_type_specification]
#[verifier::external_body]
#[verifier::reject_recursive_types(T)]
pub struct ExMutex<T: ?Sized>(std::sync::Mutex<T>);

#[verifier::external_type_specification]
#[verifier::external_body]
pub struct ExCondvar(std::sync::Condvar);

/// Relies on std::sync::Mutex::new: creates an unlocked mutex holding the
/// given value. The contents of a mutex are shared between threads, so no
/// contract here speaks of them; the verified contracts live on the methods
/// of [`Buffer`], which every thread calls while holding the lock.
#[verifier::external_body]
fn mutex_new<T>(value: T) -> std::sync::Mutex<T> {
    std::sync::Mutex::new(value)
}

/// Relies on std::sync::Condvar::new: creates a condition variable with no
/// waiters. Waiting and signalling happen outside the verified library.
#[verifier::external_body]
fn condvar_new() -> std::sync::Condvar {
    std::sync::Condvar::new()
}

/// The buffer as the worker threads share it: one mutex guarding the
/// [`Buffer`], a signal for consumers waiting on an empty buffer, and a
/// signal for producers waiting on a full one.
#[verifier::reject_recursive_types(T)]
pub struct SharedBuffer<T> {
    pub buffer: std::sync::Mutex<Buffer<T>>,
    pub can_consume: std::sync::Condvar,
    pub can_produce: std::sync::Condvar,
}

impl<T> SharedBuffer<T> {
    /// Creates a shared handle around an empty buffer with no live
    /// producers.
    pub fn new() -> Self {
        SharedBuffer {
            buffer: mutex_new(Buffer::<T>::new()),
            can_consume: condvar_new(),
            can_produce: condvar_new(),
        }
    }
}

} // verus!
