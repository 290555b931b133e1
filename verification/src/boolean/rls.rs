use vstd::prelude::*;

verus! {

/// An extension trait for `bool` that checks an expected boolean value, in
/// the style of an assertion that is also active in release builds.
///
/// The unexpected value is excluded by precondition, so the check can never
/// fire at run time.
pub trait Expect: crate::internal::Sealed + Sized {
    /// The boolean value that is checked.
    spec fn truth(self) -> bool;

    /// Checks that the value is `true`.
    fn assert_true(self)
        requires
            self.truth(),
    ;

    /// Checks that the value is `true`, with `msg` as the failure message.
    fn expect_true(self, msg: &str)
        requires
            self.truth(),
    ;

    /// Checks that the value is `false`.
    fn assert_false(self)
        requires
            !self.truth(),
    ;

    /// Checks that the value is `false`, with `msg` as the failure message.
    fn expect_false(self, msg: &str)
        requires
            !self.truth(),
    ;
}

impl Expect for bool {
    open spec fn truth(self) -> bool {
        self
    }

    fn assert_true(self) {
    }

    fn expect_true(self, msg: &str) {
    }

    fn assert_false(self) {
    }

    fn expect_false(self, msg: &str) {
    }
}

} // verus!
