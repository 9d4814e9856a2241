//! The seal on the crate's mode traits.

use vstd::prelude::*;

verus! {

/// Implemented by the types of this crate that stand for a pin mode, and by
/// no other: a trait with this bound cannot be implemented outside the crate.
pub trait Sealed {

}

} // verus!
