//! Keeps the extension traits of this crate closed to other implementors.

use vstd::prelude::*;

verus! {

/// Implemented for `Result` only.
pub trait Sealed {

}

impl<T, E> Sealed for core::result::Result<T, E> {

}

} // verus!
