use vstd::prelude::*;

verus! {

/// An extension trait for `bool` that turns `true` into `None`.
pub trait ThenNone: crate::internal::Sealed + Sized {
    /// The boolean value that the conversion branches on.
    spec fn truth(self) -> bool;

    /// Returns `None` if the value is `true`, and `Some(())` otherwise.
    ///
    /// This allows an early return from a method that returns `Option` via
    /// the `?` operator.
    fn then_none(self) -> (r: Option<()>)
        ensures
            self.truth() ==> r is None,
            !self.truth() ==> r == Some(()),
    ;
}

impl ThenNone for bool {
    open spec fn truth(self) -> bool {
        self
    }

    fn then_none(self) -> (r: Option<()>) {
        if self {
            None
        } else {
            Some(())
        }
    }
}

} // verus!
