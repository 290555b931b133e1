use vstd::prelude::*;

verus! {

/// Marker that restricts the extension traits to the built-in container
/// types; it is not an extensible interface for user-defined types.
pub trait Sealed {}

impl<T, E> Sealed for Result<T, E> {}

impl<T> Sealed for Option<T> {}

impl Sealed for bool {}

} // verus!
