use vstd::prelude::*;

verus! {

/// An extension trait for `bool` that turns `true` into `Err`.
pub trait ThenErr: crate::internal::Sealed + Sized {
    /// The boolean value that the conversion branches on.
    spec fn truth(self) -> bool;

    /// Returns `Err(err)` if the value is `true`, and `Ok(())` otherwise.
    ///
    /// This allows an early return from a method that returns `Result` via
    /// the `?` operator, turning a boolean guard into a `Result`.
    fn then_err<E>(self, err: E) -> (r: Result<(), E>)
        ensures
            self.truth() ==> r == Err::<(), E>(err),
            !self.truth() ==> r == Ok::<(), E>(()),
    ;
}

impl ThenErr for bool {
    open spec fn truth(self) -> bool {
        self
    }

    fn then_err<E>(self, err: E) -> (r: Result<(), E>) {
        if self {
            Err(err)
        } else {
            Ok(())
        }
    }
}

} // verus!
