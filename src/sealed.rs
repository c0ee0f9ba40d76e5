use vstd::prelude::*;

verus! {

/// Marker that only this crate's outcome type carries, so that no other type
/// can take on the context-attachment extension.
pub trait Sealed {
}

impl<T, E> Sealed for Result<T, E> {
}

} // verus!
