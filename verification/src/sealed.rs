//! Keeps a trait of the library from being implemented elsewhere.

use vstd::prelude::*;

verus! {

/// Implemented by the types that can point into a row, and by no others.
pub trait Sealed {

}

impl Sealed for usize {

}

impl Sealed for str {

}

impl<'a, T> Sealed for &'a T where T: ?Sized + Sealed {

}

} // verus!
