//! The size of the worker pool.
//!
//! The pool is a fixed number of worker threads, which run the scheduled
//! tasks together with the thread that started them. The number is the one
//! that was asked for, or, where none was, the number of logical CPUs.

use vstd::prelude::*;

verus! {

/// Calls `num_cpus::get`, which gives the number of logical CPUs that this
/// process may use. The number depends on the machine and on the moment, so
/// nothing is claimed of it but what the crate documents of every call: it is
/// at least 1.
#[verifier::external_body]
fn logical_cpus() -> (count: usize)
    ensures
        count >= 1,
{
    num_cpus::get()
}

/// The number of worker threads: `threads` where it is given, whatever it is,
/// and else the number of logical CPUs, which is asked for only then and is
/// at least 1.
pub fn worker_count(threads: Option<usize>) -> (count: usize)
    ensures
        threads matches Some(asked) ==> count == asked,
        threads is None ==> count >= 1,
{
    match threads {
        Some(asked) => asked,
        None => logical_cpus(),
    }
}

} // verus!
