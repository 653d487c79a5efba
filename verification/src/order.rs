//! The direction a sort runs in.

use vstd::prelude::*;

verus! {

/// Ascending or descending.
#[derive(Clone, Copy, Debug, PartialEq, Eq, Structural)]
pub enum Order {
    Asc,
    Desc,
}

} // verus!
