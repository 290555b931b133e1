use vstd::prelude::*;

verus! {

/// An extension trait for transforming a `Result<T, E>` into a
/// `Result<TOther, E>` with a fixed success value.
pub trait MapTo: crate::internal::Sealed + Sized {
    /// The error type.
    type Error;

    /// The failure value held, if any.
    spec fn failure(self) -> Option<Self::Error>;

    /// Returns `Ok(other)` if the container holds a success, leaving a
    /// failure unchanged.
    ///
    /// Analogous to mapping the success with a constant function.
    fn map_to<TOther>(self, other: TOther) -> (r: Result<TOther, Self::Error>)
        ensures
            self.failure() is None ==> r == Ok::<TOther, Self::Error>(other),
            self.failure() matches Some(e) ==> r == Err::<TOther, Self::Error>(e),
    ;
}

impl<T, E> MapTo for Result<T, E> {
    type Error = E;

    open spec fn failure(self) -> Option<E> {
        match self {
            Ok(_) => None,
            Err(e) => Some(e),
        }
    }

    fn map_to<TOther>(self, other: TOther) -> (r: Result<TOther, E>) {
        match self {
            Ok(_) => Ok(other),
            Err(e) => Err(e),
        }
    }
}

} // verus!
