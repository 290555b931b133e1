use vstd::prelude::*;

verus! {

/// Provides a postfix helper for transforming an `Option<T>` into an
/// `Option<U>` with a fixed value.
pub trait OptionMapTo: crate::internal::Sealed + Sized {
    /// Whether the container holds a value.
    spec fn is_present(self) -> bool;

    /// Replaces a held value with `value`, leaving `None` unchanged.
    ///
    /// Analogous to mapping with a constant function.
    fn map_to<U>(self, value: U) -> (r: Option<U>)
        ensures
            self.is_present() ==> r == Some(value),
            !self.is_present() ==> r is None,
    ;
}

impl<T> OptionMapTo for Option<T> {
    open spec fn is_present(self) -> bool {
        self is Some
    }

    fn map_to<U>(self, value: U) -> (r: Option<U>) {
        match self {
            Some(_) => Some(value),
            None => None,
        }
    }
}

} // verus!
