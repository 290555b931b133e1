use vstd::prelude::*;

verus! {

/// Provides a postfix helper for handling the `Err` variant of a
/// `Result<(), E>` by sinking it into a side-effecting function.
pub trait SinkErr<E>: crate::internal::Sealed + Sized {
    /// The failure value held, if any.
    spec fn failure(self) -> Option<E>;

    /// Calls `function` with the failure value if the container holds one,
    /// and does nothing otherwise.
    fn sink_err<F: FnOnce(E)>(self, function: F)
        requires
            self.failure() matches Some(e) ==> call_requires(function, (e,)),
        ensures
            self.failure() matches Some(e) ==> call_ensures(function, (e,), ()),
    ;
}

impl<E> SinkErr<E> for Result<(), E> {
    open spec fn failure(self) -> Option<E> {
        match self {
            Ok(_) => None,
            Err(e) => Some(e),
        }
    }

    fn sink_err<F: FnOnce(E)>(self, function: F) {
        if let Err(e) = self {
            function(e);
        }
    }
}

} // verus!
