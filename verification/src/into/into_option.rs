use vstd::prelude::*;

verus! {

/// Provides postfix conversion of any value into an `Option`.
pub trait IntoOption: Sized {
    /// Moves a value into the `Some` variant of an `Option`.
    fn into_some(self) -> (r: Option<Self>)
        ensures
            r == Some(self),
    {
        Some(self)
    }

    /// Turns a value into `None`, discarding it.
    ///
    /// When used in terminal position, `TOut` can be inferred; in other
    /// positions it can be specified.
    fn into_none<TOut>(self) -> (r: Option<TOut>)
        ensures
            r is None,
    {
        None
    }
}

impl<T> IntoOption for T {

}

} // verus!
