use vstd::prelude::*;

verus! {

/// A trait that wraps any value, owned or borrowed, in the `Some` variant
/// of an `Option`.
pub trait IntoSome: Sized {
    /// Moves a value into `Some`.
    fn into_some(self) -> (r: Option<Self>)
        ensures
            r == Some(self),
    {
        Some(self)
    }

    /// Wraps a borrowed value in `Some`.
    fn as_some(&self) -> (r: Option<&Self>)
        ensures
            r == Some(self),
    {
        Some(self)
    }
}

impl<T> IntoSome for T {

}

} // verus!
