use vstd::prelude::*;

verus! {

/// Provides postfix conversion of any value into a `Result`.
pub trait IntoResult: Sized {
    /// Moves a value into the `Ok` variant of a `Result`.
    ///
    /// When used in terminal position, `E` can be inferred; in other
    /// positions it can be specified.
    fn into_ok<E>(self) -> (r: Result<Self, E>)
        ensures
            r == Ok::<Self, E>(self),
    {
        Ok(self)
    }

    /// Moves an error value into the `Err` variant of a `Result`.
    ///
    /// When used in terminal position, `T` can be inferred; in other
    /// positions it can be specified.
    fn into_err<T>(self) -> (r: Result<T, Self>)
        ensures
            r == Err::<T, Self>(self),
    {
        Err(self)
    }
}

impl<T> IntoResult for T {

}

} // verus!
