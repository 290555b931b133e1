use vstd::prelude::*;

verus! {

/// A trait that moves any value into the `Ok` variant of a `Result`.
pub trait IntoOk: Sized {
    /// Moves a value into `Ok`.
    ///
    /// When used in terminal position, `E` can be inferred; in other
    /// positions it can be specified.
    fn into_ok<E>(self) -> (r: Result<Self, E>)
        ensures
            r == Ok::<Self, E>(self),
    {
        Ok(self)
    }
}

impl<T> IntoOk for T {

}

} // verus!
