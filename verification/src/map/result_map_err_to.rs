use vstd::prelude::*;

verus! {

/// An extension trait for transforming a `Result<T, E>` into a
/// `Result<T, EOther>` with a fixed error value.
pub trait ResultMapErrTo: crate::internal::Sealed + Sized {
    /// The success type.
    type Success;

    /// The success value held, if any.
    spec fn success(self) -> Option<Self::Success>;

    /// Substitutes `Err(other)` for the `Err` variant, leaving a success
    /// unchanged.
    ///
    /// Analogous to mapping the error with a constant function.
    fn map_err_to<EOther>(self, other: EOther) -> (r: Result<Self::Success, EOther>)
        ensures
            self.success() matches Some(t) ==> r == Ok::<Self::Success, EOther>(t),
            self.success() is None ==> r == Err::<Self::Success, EOther>(other),
    ;
}

impl<T, E> ResultMapErrTo for Result<T, E> {
    type Success = T;

    open spec fn success(self) -> Option<T> {
        match self {
            Ok(t) => Some(t),
            Err(_) => None,
        }
    }

    fn map_err_to<EOther>(self, other: EOther) -> (r: Result<T, EOther>) {
        match self {
            Ok(t) => Ok(t),
            Err(_) => Err(other),
        }
    }
}

} // verus!
