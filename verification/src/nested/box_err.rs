use vstd::prelude::*;

use crate::describe::{Describe, ErasedFailure, ErasedView};

verus! {

/// Allows resolving nested `Result`s by erasing the concrete type of the
/// failure value into an [`ErasedFailure`].
///
/// The resolver works with `Result`s nested up to four layers deep, so long
/// as the failure type of every layer is [`Describe`]. It unwraps from the
/// outermost layer inward: at the first layer that is a failure, the
/// failure value's type is erased and the resolver returns immediately;
/// only a success at a given layer permits inspecting the next layer in.
/// Which layer failed is discarded.
///
/// For two layers, when keeping track of which layer failed matters,
/// consider [`FlattenErr::flatten_err`](crate::nested::FlattenErr) instead.
pub trait BoxErr<T>: Sized {
    /// The resolved value: the innermost success, or the first failing
    /// layer from the outside, erased.
    spec fn resolved(self) -> Result<T, ErasedView>;

    /// Erases the failure in a `Result`, flattening any nesting.
    ///
    /// Returns `Err` if any layer of the nested `Result` is a failure,
    /// carrying the failure value of the outermost failing layer with its
    /// concrete type erased.
    fn box_err(self) -> (r: Result<T, ErasedFailure>)
        ensures
            r matches Ok(v) ==> self.resolved() == Ok::<T, ErasedView>(v),
            r matches Err(f) ==> self.resolved() == Err::<T, ErasedView>(f@),
    ;
}

impl<T, E: Describe> BoxErr<T> for Result<T, E> {
    open spec fn resolved(self) -> Result<T, ErasedView> {
        match self {
            Ok(v) => Ok(v),
            Err(e) => Err(e.erased_view()),
        }
    }

    fn box_err(self) -> (r: Result<T, ErasedFailure>) {
        match self {
            Ok(v) => Ok(v),
            Err(e) => Err(e.erase()),
        }
    }
}

impl<T, E1: Describe, E2: Describe> BoxErr<T> for Result<Result<T, E1>, E2> {
    open spec fn resolved(self) -> Result<T, ErasedView> {
        match self {
            Ok(inner) => inner.resolved(),
            Err(e) => Err(e.erased_view()),
        }
    }

    fn box_err(self) -> (r: Result<T, ErasedFailure>) {
        match self {
            Ok(inner) => inner.box_err(),
            Err(e) => Err(e.erase()),
        }
    }
}

impl<T, E1: Describe, E2: Describe, E3: Describe> BoxErr<T> for Result<
    Result<Result<T, E1>, E2>,
    E3,
> {
    open spec fn resolved(self) -> Result<T, ErasedView> {
        match self {
            Ok(inner) => inner.resolved(),
            Err(e) => Err(e.erased_view()),
        }
    }

    fn box_err(self) -> (r: Result<T, ErasedFailure>) {
        match self {
            Ok(inner) => inner.box_err(),
            Err(e) => Err(e.erase()),
        }
    }
}

impl<T, E1: Describe, E2: Describe, E3: Describe, E4: Describe> BoxErr<T> for Result<
    Result<Result<Result<T, E1>, E2>, E3>,
    E4,
> {
    open spec fn resolved(self) -> Result<T, ErasedView> {
        match self {
            Ok(inner) => inner.resolved(),
            Err(e) => Err(e.erased_view()),
        }
    }

    fn box_err(self) -> (r: Result<T, ErasedFailure>) {
        match self {
            Ok(inner) => inner.box_err(),
            Err(e) => Err(e.erase()),
        }
    }
}

/// Resolving one layer succeeds exactly when that layer is a success, and
/// otherwise erases that layer's failure value.
pub proof fn lemma_resolve_depth_one<T, E1: Describe>(r: Result<T, E1>)
    ensures
        r matches Ok(v) ==> <Result<T, E1> as BoxErr<T>>::resolved(r) == Ok::<T, ErasedView>(v),
        r matches Err(e) ==> <Result<T, E1> as BoxErr<T>>::resolved(r) == Err::<T, ErasedView>(
            e.erased_view(),
        ),
{
}

/// Resolving two layers succeeds exactly when both layers are successes,
/// and otherwise erases the failure value of the outermost failing layer.
pub proof fn lemma_resolve_depth_two<T, E1: Describe, E2: Describe>(r: Result<Result<T, E1>, E2>)
    ensures
        r matches Ok(inner) ==> inner matches Ok(v) ==> <Result<Result<T, E1>, E2> as BoxErr<
            T,
        >>::resolved(r) == Ok::<T, ErasedView>(v),
        r matches Ok(inner) ==> inner matches Err(e) ==> <Result<Result<T, E1>, E2> as BoxErr<
            T,
        >>::resolved(r) == Err::<T, ErasedView>(e.erased_view()),
        r matches Err(e) ==> <Result<Result<T, E1>, E2> as BoxErr<T>>::resolved(r) == Err::<
            T,
            ErasedView,
        >(e.erased_view()),
{
    if let Ok(inner) = r {
        lemma_resolve_depth_one(inner);
    }
}

/// Resolving three layers succeeds exactly when all three layers are
/// successes, and otherwise erases the failure value of the outermost
/// failing layer.
pub proof fn lemma_resolve_depth_three<T, E1: Describe, E2: Describe, E3: Describe>(
    r: Result<Result<Result<T, E1>, E2>, E3>,
)
    ensures
        r matches Ok(mid) ==> mid matches Ok(inner) ==> inner matches Ok(v) ==> <Result<
            Result<Result<T, E1>, E2>,
            E3,
        > as BoxErr<T>>::resolved(r) == Ok::<T, ErasedView>(v),
        r matches Ok(mid) ==> mid matches Ok(inner) ==> inner matches Err(e) ==> <Result<
            Result<Result<T, E1>, E2>,
            E3,
        > as BoxErr<T>>::resolved(r) == Err::<T, ErasedView>(e.erased_view()),
        r matches Ok(mid) ==> mid matches Err(e) ==> <Result<
            Result<Result<T, E1>, E2>,
            E3,
        > as BoxErr<T>>::resolved(r) == Err::<T, ErasedView>(e.erased_view()),
        r matches Err(e) ==> <Result<Result<Result<T, E1>, E2>, E3> as BoxErr<T>>::resolved(r)
            == Err::<T, ErasedView>(e.erased_view()),
{
    if let Ok(mid) = r {
        lemma_resolve_depth_two(mid);
    }
}

/// Resolving four layers succeeds exactly when all four layers are
/// successes, and otherwise erases the failure value of the outermost
/// failing layer.
pub proof fn lemma_resolve_depth_four<T, E1: Describe, E2: Describe, E3: Describe, E4: Describe>(
    r: Result<Result<Result<Result<T, E1>, E2>, E3>, E4>,
)
    ensures
        r matches Ok(outer) ==> outer matches Ok(mid) ==> mid matches Ok(inner)
            ==> inner matches Ok(v) ==> <Result<
            Result<Result<Result<T, E1>, E2>, E3>,
            E4,
        > as BoxErr<T>>::resolved(r) == Ok::<T, ErasedView>(v),
        r matches Ok(outer) ==> outer matches Ok(mid) ==> mid matches Ok(inner)
            ==> inner matches Err(e) ==> <Result<
            Result<Result<Result<T, E1>, E2>, E3>,
            E4,
        > as BoxErr<T>>::resolved(r) == Err::<T, ErasedView>(e.erased_view()),
        r matches Ok(outer) ==> outer matches Ok(mid) ==> mid matches Err(e) ==> <Result<
            Result<Result<Result<T, E1>, E2>, E3>,
            E4,
        > as BoxErr<T>>::resolved(r) == Err::<T, ErasedView>(e.erased_view()),
        r matches Ok(outer) ==> outer matches Err(e) ==> <Result<
            Result<Result<Result<T, E1>, E2>, E3>,
            E4,
        > as BoxErr<T>>::resolved(r) == Err::<T, ErasedView>(e.erased_view()),
        r matches Err(e) ==> <Result<Result<Result<Result<T, E1>, E2>, E3>, E4> as BoxErr<
            T,
        >>::resolved(r) == Err::<T, ErasedView>(e.erased_view()),
{
    if let Ok(outer) = r {
        lemma_resolve_depth_three(outer);
    }
}

} // verus!
