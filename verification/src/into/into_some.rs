use vstd::prelude::*;

verus! {

/// A trait that moves any value into the `Some` variant of an `Option`.
pub trait IntoSome: Sized {
    /// Moves a value into `Some`.
    fn into_some(self) -> (r: Option<Self>)
        ensures
            r == Some(self),
    {
        Some(self)
    }
}

impl<T> IntoSome for T {

}

} // verus!
