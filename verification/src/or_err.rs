use vstd::prelude::*;

verus! {

/// A trait for converting a `Result` into a `Result` with a different
/// error type.
pub trait OrErr: crate::internal::Sealed + Sized {
    /// The success type.
    type Success;

    /// Discards the container and returns `Err(err)`.
    ///
    /// - `E`: the error type of the outgoing `Result`.
    /// - `err`: the error value to carry.
    fn or_err<E>(self, err: E) -> (r: Result<Self::Success, E>)
        ensures
            r == Err::<Self::Success, E>(err),
    ;
}

impl<T, EIn> OrErr for Result<T, EIn> {
    type Success = T;

    fn or_err<E>(self, err: E) -> (r: Result<T, E>) {
        Err(err)
    }
}

} // verus!
