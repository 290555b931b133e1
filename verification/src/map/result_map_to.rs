use vstd::prelude::*;

verus! {

/// Provides postfix helpers for transforming a `Result<T, E>` into a
/// `Result` with a fixed success or error value.
pub trait ResultMapTo: crate::internal::Sealed + Sized {
    /// The success type.
    type Success;

    /// The error type.
    type Error;

    /// The resolved container.
    spec fn value(self) -> Result<Self::Success, Self::Error>;

    /// Substitutes `Ok(other)` for the `Ok` variant, leaving a failure
    /// unchanged.
    ///
    /// Analogous to mapping the success with a constant function.
    fn map_to<TOther>(self, other: TOther) -> (r: Result<TOther, Self::Error>)
        ensures
            self.value() is Ok ==> r == Ok::<TOther, Self::Error>(other),
            self.value() matches Err(e) ==> r == Err::<TOther, Self::Error>(e),
    ;

    /// Substitutes `Err(other)` for the `Err` variant, leaving a success
    /// unchanged.
    ///
    /// Analogous to mapping the error with a constant function.
    fn map_err_to<EOther>(self, other: EOther) -> (r: Result<Self::Success, EOther>)
        ensures
            self.value() matches Ok(t) ==> r == Ok::<Self::Success, EOther>(t),
            self.value() is Err ==> r == Err::<Self::Success, EOther>(other),
    ;
}

impl<T, E> ResultMapTo for Result<T, E> {
    type Success = T;

    type Error = E;

    open spec fn value(self) -> Result<T, E> {
        self
    }

    fn map_to<TOther>(self, other: TOther) -> (r: Result<TOther, E>) {
        match self {
            Ok(_) => Ok(other),
            Err(e) => Err(e),
        }
    }

    fn map_err_to<EOther>(self, other: EOther) -> (r: Result<T, EOther>) {
        match self {
            Ok(t) => Ok(t),
            Err(_) => Err(other),
        }
    }
}

} // verus!
