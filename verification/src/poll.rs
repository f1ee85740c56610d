//! The outcome of asking once for something that may not be there yet.

use vstd::prelude::*;

verus! {

/// A value that is there, or that is still being waited for.
#[derive(Debug)]
pub enum Poll<T> {
    /// The value.
    Ready(T),
    /// The value is not there yet.
    Pending,
}

} // verus!
