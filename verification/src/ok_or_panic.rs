use vstd::prelude::*;

verus! {

/// An extension trait for transforming a `Result<T, EIn>` into a
/// `Result<T, EOut>` by unwrapping the success value and rewrapping it in a
/// new error context.
///
/// This is useful when the original error can no longer occur and success
/// should be propagated while substituting a new error type. The failure
/// case is excluded by precondition, so the unwrap can never fire at run
/// time.
///
/// - `T`: the success type.
/// - `EOut`: the substituted error type of the outgoing `Result`.
pub trait OkOrPanic<T, EOut>: crate::internal::Sealed + Sized {
    /// Whether the container holds its success value.
    spec fn is_success(self) -> bool;

    /// The success value held.
    spec fn success_value(self) -> T;

    /// Converts a `Result<T, EIn>` into a `Result<T, EOut>` by unwrapping
    /// the success value.
    fn ok_or_unwrap(self) -> (r: Result<T, EOut>)
        requires
            self.is_success(),
        ensures
            r == Ok::<T, EOut>(self.success_value()),
    ;

    /// Converts a `Result<T, EIn>` into a `Result<T, EOut>` by unwrapping
    /// the success value, with `msg` as the failure message.
    fn ok_or_expect(self, msg: &str) -> (r: Result<T, EOut>)
        requires
            self.is_success(),
        ensures
            r == Ok::<T, EOut>(self.success_value()),
    ;
}

impl<T, EIn, EOut> OkOrPanic<T, EOut> for Result<T, EIn> {
    open spec fn is_success(self) -> bool {
        self is Ok
    }

    open spec fn success_value(self) -> T {
        self->Ok_0
    }

    fn ok_or_unwrap(self) -> (r: Result<T, EOut>) {
        match self {
            Ok(t) => Ok(t),
            Err(_) => vstd::pervasive::unreached(),
        }
    }

    fn ok_or_expect(self, msg: &str) -> (r: Result<T, EOut>) {
        match self {
            Ok(t) => Ok(t),
            Err(_) => vstd::pervasive::unreached(),
        }
    }
}

} // verus!
