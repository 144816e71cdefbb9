//! A concurrent hostname-resolution pipeline: producers read hostnames from
//! input sources and push them through a fixed-capacity bounded buffer to
//! consumers, which resolve each hostname and log the outcome.
//!
//! This crate holds the verified core: the bounded buffer with its
//! producer-liveness protocol, the pure decision logic of the producer and
//! consumer workers, and the formatting of the two output logs.

use vstd::prelude::*;

pub mod config;
pub mod decimal;
pub mod pool;
pub mod protocol;
pub mod resolve;
pub mod shared_buffer;

verus! {

/// Fixed capacity of the bounded buffer.
pub const ARRAY_SIZE: usize = 10;

/// Most input paths a run accepts on the command line.
pub const MAX_INPUT_FILES: usize = 100;

/// Most producer (requester) workers a run may spawn.
pub const MAX_REQUESTER_THREADS: usize = 10;

/// Most consumer (resolver) workers a run may spawn.
pub const MAX_RESOLVER_THREADS: usize = 10;

/// The buffer capacity as a mathematical number, for use in contracts.
pub open spec fn capacity() -> nat {
    ARRAY_SIZE as nat
}

/// The producer's decision which lines of a source become work items:
/// exactly the non-empty ones are pushed and serviced-logged.
pub fn is_work_line(line: &str) -> (r: bool)
    ensures
        r == (line@.len() > 0),
{
    !line.is_empty()
}

} // verus!
