use vstd::prelude::*;

verus! {

/// An extension trait for sinking one variant of a `Result` into a
/// side-effecting function, leaving an `Option` with the other variant.
///
/// This is useful for one-sided handling, where one variant is consumed and
/// the other optionally propagated.
pub trait SinkResult<T, E>: crate::internal::Sealed + Sized {
    /// The resolved container.
    spec fn value(self) -> Result<T, E>;

    /// Sinks the `Ok` variant into `sink`, returning the `Err` variant, if
    /// any.
    fn sink_ok<F: FnOnce(T)>(self, sink: F) -> (r: Option<E>)
        requires
            self.value() matches Ok(t) ==> call_requires(sink, (t,)),
        ensures
            self.value() matches Ok(t) ==> r is None && call_ensures(sink, (t,), ()),
            self.value() matches Err(e) ==> r == Some(e),
    ;

    /// Sinks the `Err` variant into `sink`, returning the `Ok` variant, if
    /// any.
    fn sink_err<F: FnOnce(E)>(self, sink: F) -> (r: Option<T>)
        requires
            self.value() matches Err(e) ==> call_requires(sink, (e,)),
        ensures
            self.value() matches Err(e) ==> r is None && call_ensures(sink, (e,), ()),
            self.value() matches Ok(t) ==> r == Some(t),
    ;
}

impl<T, E> SinkResult<T, E> for Result<T, E> {
    open spec fn value(self) -> Result<T, E> {
        self
    }

    fn sink_ok<F: FnOnce(T)>(self, sink: F) -> (r: Option<E>) {
        match self {
            Ok(t) => {
                sink(t);
                None
            },
            Err(e) => Some(e),
        }
    }

    fn sink_err<F: FnOnce(E)>(self, sink: F) -> (r: Option<T>) {
        match self {
            Ok(t) => Some(t),
            Err(e) => {
                sink(e);
                None
            },
        }
    }
}

} // verus!
