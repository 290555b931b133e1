use vstd::prelude::*;

verus! {

/// An extension trait for `bool` that converts a boolean guard into a
/// `Result` or an `Option`, so that it can drive an early return via the
/// `?` operator.
pub trait Then: crate::internal::Sealed + Sized {
    /// The boolean value that the conversions branch on.
    spec fn truth(self) -> bool;

    /// Returns `Err(err)` if the value is `true`, and `Ok(())` otherwise.
    fn then_err<E>(self, err: E) -> (r: Result<(), E>)
        ensures
            self.truth() ==> r == Err::<(), E>(err),
            !self.truth() ==> r == Ok::<(), E>(()),
    ;

    /// Returns `Err(err())` if the value is `true`, and `Ok(())` otherwise;
    /// the error is only produced when it is needed.
    fn then_err_with<E, F: FnOnce() -> E>(self, err: F) -> (r: Result<(), E>)
        requires
            self.truth() ==> call_requires(err, ()),
        ensures
            self.truth() ==> (r matches Err(e) && call_ensures(err, (), e)),
            !self.truth() ==> r == Ok::<(), E>(()),
    ;

    /// Returns `Ok(ok)` if the value is `true`, and `Err(err)` otherwise.
    fn to_result<T, E>(self, ok: T, err: E) -> (r: Result<T, E>)
        ensures
            self.truth() ==> r == Ok::<T, E>(ok),
            !self.truth() ==> r == Err::<T, E>(err),
    ;

    /// Returns `Ok(ok())` if the value is `true`, and `Err(err())`
    /// otherwise; only the branch that is taken is evaluated.
    fn to_result_with<T, E, FOk: FnOnce() -> T, FErr: FnOnce() -> E>(
        self,
        ok: FOk,
        err: FErr,
    ) -> (r: Result<T, E>)
        requires
            self.truth() ==> call_requires(ok, ()),
            !self.truth() ==> call_requires(err, ()),
        ensures
            self.truth() ==> (r matches Ok(t) && call_ensures(ok, (), t)),
            !self.truth() ==> (r matches Err(e) && call_ensures(err, (), e)),
    ;

    /// Returns `None` if the value is `true`, and `Some(())` otherwise.
    fn then_none(self) -> (r: Option<()>)
        ensures
            self.truth() ==> r is None,
            !self.truth() ==> r == Some(()),
    ;
}

impl Then for bool {
    open spec fn truth(self) -> bool {
        self
    }

    fn then_err<E>(self, err: E) -> (r: Result<(), E>) {
        if self {
            Err(err)
        } else {
            Ok(())
        }
    }

    fn then_err_with<E, F: FnOnce() -> E>(self, err: F) -> (r: Result<(), E>) {
        if self {
            Err(err())
        } else {
            Ok(())
        }
    }

    fn to_result<T, E>(self, ok: T, err: E) -> (r: Result<T, E>) {
        if self {
            Ok(ok)
        } else {
            Err(err)
        }
    }

    fn to_result_with<T, E, FOk: FnOnce() -> T, FErr: FnOnce() -> E>(
        self,
        ok: FOk,
        err: FErr,
    ) -> (r: Result<T, E>) {
        if self {
            Ok(ok())
        } else {
            Err(err())
        }
    }

    fn then_none(self) -> (r: Option<()>) {
        if self {
            None
        } else {
            Some(())
        }
    }
}

} // verus!
