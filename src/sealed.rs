//! A marker that keeps traits of this crate from being implemented
//! elsewhere.

use vstd::prelude::*;

verus! {

/// Implemented only by this crate.
pub trait Sealed<T> {}

} // verus!
