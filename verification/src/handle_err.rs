use vstd::prelude::*;

verus! {

/// Provides a postfix helper for handling the `Err` variant of a
/// [`UnitResult`](crate::UnitResult) by sinking it into a side-effecting
/// function.
pub trait HandleErr<E>: crate::internal::Sealed + Sized {
    /// The failure value held, if any.
    spec fn failure(self) -> Option<E>;

    /// Calls `sink` with the failure value if the container holds one, and
    /// does nothing otherwise.
    fn handle_err<F: FnOnce(E)>(self, sink: F)
        requires
            self.failure() matches Some(e) ==> call_requires(sink, (e,)),
        ensures
            self.failure() matches Some(e) ==> call_ensures(sink, (e,), ()),
    ;
}

impl<E> HandleErr<E> for Result<(), E> {
    open spec fn failure(self) -> Option<E> {
        match self {
            Ok(_) => None,
            Err(e) => Some(e),
        }
    }

    fn handle_err<F: FnOnce(E)>(self, sink: F) {
        if let Err(e) = self {
            sink(e);
        }
    }
}

} // verus!
