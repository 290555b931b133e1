use vstd::prelude::*;

verus! {

/// An extension trait for unwrapping the `Ok` variant of an
/// [`InfallibleResult`](crate::InfallibleResult) without the possibility of
/// panic.
///
/// The failure variant of such a `Result` cannot be constructed, so the
/// success variant is the only one a caller can ever hold; the precondition
/// records that.
pub trait UnwrapNever<T>: crate::internal::Sealed + Sized {
    /// Whether the container holds its success value.
    spec fn is_success(self) -> bool;

    /// The success value held.
    spec fn success_value(self) -> T;

    /// Unwraps the success value, panic free.
    fn unwrap_never(self) -> (t: T)
        requires
            self.is_success(),
        ensures
            t == self.success_value(),
    ;
}

impl<T> UnwrapNever<T> for Result<T, core::convert::Infallible> {
    open spec fn is_success(self) -> bool {
        self is Ok
    }

    open spec fn success_value(self) -> T {
        self->Ok_0
    }

    fn unwrap_never(self) -> (t: T) {
        match self {
            Ok(t) => t,
            Err(_) => vstd::pervasive::unreached(),
        }
    }
}

} // verus!
