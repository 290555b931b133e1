use vstd::prelude::*;

verus! {

/// An extension trait for `Option` that consumes an expected `None` value.
///
/// This is useful for checking that a method that should return `None` does
/// so, for example when inserting a value into a map whose key should be
/// unique. The `Some` case is excluded by precondition, so the check can
/// never fire at run time.
pub trait ExpectNone: crate::internal::Sealed + Sized {
    /// Whether the container is empty.
    spec fn is_vacant(self) -> bool;

    /// Consumes a `None` value.
    fn unwrap_none(self)
        requires
            self.is_vacant(),
    ;

    /// Consumes a `None` value, with `msg` as the failure message.
    fn expect_none(self, msg: &str)
        requires
            self.is_vacant(),
    ;
}

impl<T> ExpectNone for Option<T> {
    open spec fn is_vacant(self) -> bool {
        self is None
    }

    fn unwrap_none(self) {
    }

    fn expect_none(self, msg: &str) {
    }
}

} // verus!
