//! What the crate keeps to itself.

use vstd::prelude::*;

verus! {

/// Marks the types that this crate lets stand for a native type. It has no
/// method and cannot be named from outside, so the traits that it bounds get
/// no implementation but those written here.
pub trait Sealed {

}

} // verus!
