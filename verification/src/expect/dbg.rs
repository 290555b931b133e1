use vstd::prelude::*;

verus! {

/// An extension trait for `Option` that checks for the `None` variant, in
/// the style of a debug-build assertion.
///
/// The `Some` case is excluded by precondition, so the check can never fire
/// at run time.
pub trait ExpectNone: crate::internal::Sealed + Sized {
    /// Whether the container is empty.
    spec fn is_vacant(self) -> bool;

    /// Checks that the container is `None`.
    fn assert_none(self)
        requires
            self.is_vacant(),
    ;

    /// Checks that the container is `None`, with `msg` as the failure
    /// message.
    fn expect_none(self, msg: &str)
        requires
            self.is_vacant(),
    ;
}

impl<T> ExpectNone for Option<T> {
    open spec fn is_vacant(self) -> bool {
        self is None
    }

    fn assert_none(self) {
    }

    fn expect_none(self, msg: &str) {
    }
}

} // verus!
