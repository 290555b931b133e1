//! Extension traits that hand a container's value to a side-effecting
//! function.

mod sink_option;
mod sink_result;

pub use sink_option::SinkOption;
pub use sink_result::SinkResult;

use vstd::prelude::*;

verus! {

/// A postfix helper for handling the `Some` variant of an `Option` by
/// sinking it into a side-effecting function.
pub trait Sink<T>: crate::internal::Sealed + Sized {
    /// The value held, if any.
    spec fn present(self) -> Option<T>;

    /// Calls `sink` with the held value if the container holds one, and
    /// does nothing otherwise.
    fn sink<F: FnOnce(T)>(self, sink: F)
        requires
            self.present() matches Some(t) ==> call_requires(sink, (t,)),
        ensures
            self.present() matches Some(t) ==> call_ensures(sink, (t,), ()),
    ;
}

impl<T> Sink<T> for Option<T> {
    open spec fn present(self) -> Option<T> {
        self
    }

    fn sink<F: FnOnce(T)>(self, sink: F) {
        if let Some(t) = self {
            sink(t);
        }
    }
}

} // verus!
