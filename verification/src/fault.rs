//! Why a loop stopped.

use vstd::prelude::*;

verus! {

/// The reason for which a loop stops. `E` is the error type of the driver's
/// I/O; the loops carry such errors and never look inside them.
#[derive(Debug, PartialEq, Eq)]
pub enum Fault<E> {
    /// The operation that the loop was waiting for failed with this error.
    Io(E),
    /// An event arrived that does not answer the operation that the loop was
    /// waiting for, or arrived after the loop had stopped.
    OutOfTurn,
}

} // verus!
