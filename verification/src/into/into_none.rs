use vstd::prelude::*;

verus! {

/// A trait that turns any value into `None`, discarding it.
pub trait IntoNone: Sized {
    /// Turns a value into `None`.
    ///
    /// When used in terminal position, `TOut` can be inferred; in other
    /// positions it can be specified.
    fn into_none<TOut>(self) -> (r: Option<TOut>)
        ensures
            r is None,
    {
        None
    }
}

impl<T> IntoNone for T {

}

} // verus!
