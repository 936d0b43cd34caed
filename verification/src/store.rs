//! How a durable store fails.

use vstd::prelude::*;

verus! {

/// A failure of a durable store: the backing store could not be reached, or a
/// constraint of the schema — a unique key already taken, an exhausted
/// identifier space — refused the write.
#[derive(Clone, Copy, Debug, PartialEq, Eq, Structural)]
pub enum StoreError {
    Unreachable,
    Constraint,
}

} // verus!
