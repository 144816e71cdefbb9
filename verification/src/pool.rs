//! The shared pool of work sources. Producers claim sources from it one at
//! a time; a claim is exclusive, and a producer that expands a directory
//! keeps one child to process immediately and returns the rest to the pool.
//!
//! Each source is named by its path. The caller guards the pool with its
//! own lock and performs every claim while holding it, so each operation
//! here is one atomic pop-or-empty step on a shared stack.

use vstd::prelude::*;

verus! {

/// The pool of work sources still waiting to be claimed, newest last.
pub struct WorkPool {
    sources: Vec<String>,
}

impl View for WorkPool {
    type V = Seq<String>;

    closed spec fn view(&self) -> Seq<String> {
        self.sources@
    }
}

impl WorkPool {
    /// Creates the pool over the input paths the run was started with.
    pub fn new(initial: Vec<String>) -> (p: WorkPool)
        ensures
            p@ == initial@,
    {
        WorkPool { sources: initial }
    }

    /// Claims the newest source exclusively, or reports the pool empty —
    /// the producer's signal to deregister and stop.
    pub fn claim(&mut self) -> (r: Option<String>)
        ensures
            old(self)@.len() == 0 ==> r is None && final(self)@ == old(self)@,
            old(self)@.len() > 0 ==> r == Some(old(self)@.last())
                && final(self)@ == old(self)@.drop_last(),
    {
        self.sources.pop()
    }

    /// Returns one source to the pool, as a directory expansion does with
    /// the children it will not process itself.
    pub fn add(&mut self, source: String)
        ensures
            final(self)@ == old(self)@.push(source),
    {
        self.sources.push(source);
    }

    /// Splits a directory's children between the claiming producer and the
    /// pool: the producer keeps the last child to process immediately, the
    /// others go back to the pool in order. An empty expansion yields
    /// nothing and leaves the pool unchanged, and the producer claims anew.
    pub fn split_claim(&mut self, children: Vec<String>) -> (r: Option<String>)
        ensures
            children@.len() == 0 ==> r is None && final(self)@ == old(self)@,
            children@.len() > 0 ==> r == Some(children@.last())
                && final(self)@ == old(self)@ + children@.drop_last(),
    {
        let mut rest = children;
        let current = rest.pop();
        match current {
            None => None,
            Some(child) => {
                self.sources.append(&mut rest);
                Some(child)
            },
        }
    }
}

} // verus!
