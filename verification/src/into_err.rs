use vstd::prelude::*;

verus! {

/// A trait that moves an error value into the `Err` variant of a `Result`.
///
/// This is only offered for describable failure values, not for all types.
pub trait IntoErr: Sized {
    /// Moves an error value into `Err`.
    ///
    /// When used in terminal position, `T` can be inferred; in other
    /// positions it can be specified.
    fn into_err<T>(self) -> (r: Result<T, Self>)
        ensures
            r == Err::<T, Self>(self),
    {
        Err(self)
    }
}

impl<E: crate::describe::Describe> IntoErr for E {

}

} // verus!
