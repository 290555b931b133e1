use vstd::prelude::*;

use crate::describe::{Describe, ErasedFailure, ErasedView};

verus! {

/// Allows flattening a `Result<Result<T, EIn>, EOut>` into a
/// `Result<T, NestedError<EIn, EOut>>`.
pub trait FlattenErr<T, EIn, EOut>: Sized {
    /// The flattened value: the innermost success, or the failing layer
    /// together with its failure value.
    spec fn flattened(self) -> Result<T, NestedError<EIn, EOut>>;

    /// Flattens a `Result<Result<T, EIn>, EOut>` into a
    /// `Result<T, NestedError<EIn, EOut>>`.
    ///
    /// - Returns `Ok` if the outer and the inner `Result` are both `Ok`.
    /// - Returns a [`NestedError::Inner`] if the outer `Result` is `Ok` and
    ///   the inner one is `Err`.
    /// - Returns a [`NestedError::Outer`] if the outer `Result` is `Err`;
    ///   in that case no inner value exists to be inspected.
    fn flatten_err(self) -> (r: Result<T, NestedError<EIn, EOut>>)
        ensures
            r == self.flattened(),
    ;
}

impl<T, EIn, EOut> FlattenErr<T, EIn, EOut> for Result<Result<T, EIn>, EOut> {
    open spec fn flattened(self) -> Result<T, NestedError<EIn, EOut>> {
        match self {
            Ok(Ok(v)) => Ok(v),
            Ok(Err(e)) => Err(NestedError::Inner(e)),
            Err(e) => Err(NestedError::Outer(e)),
        }
    }

    fn flatten_err(self) -> (r: Result<T, NestedError<EIn, EOut>>) {
        match self {
            Ok(Ok(v)) => Ok(v),
            Ok(Err(e)) => Err(NestedError::Inner(e)),
            Err(e) => Err(NestedError::Outer(e)),
        }
    }
}

/// An error created by flattening a `Result<Result<T, EIn>, EOut>` with
/// [`FlattenErr::flatten_err`].
///
/// Exactly one variant is populated; the tag records which nesting layer
/// produced the failure value being carried and is fixed at construction.
///
/// - `EIn`: the error type of the inner `Result`.
/// - `EOut`: the error type of the outer `Result`.
#[derive(Debug, PartialEq, Eq)]
pub enum NestedError<EIn, EOut> {
    /// The inner `Result` failed.
    Inner(EIn),
    /// The outer `Result` failed.
    Outer(EOut),
}

impl<EIn, EOut> NestedError<EIn, EOut> {
    /// Whether the inner layer produced the failure.
    pub fn is_inner(&self) -> (b: bool)
        ensures
            b == (self is Inner),
    {
        match self {
            NestedError::Inner(_) => true,
            NestedError::Outer(_) => false,
        }
    }

    /// Whether the outer layer produced the failure.
    pub fn is_outer(&self) -> (b: bool)
        ensures
            b == (self is Outer),
    {
        match self {
            NestedError::Inner(_) => false,
            NestedError::Outer(_) => true,
        }
    }

    /// Narrows the error back to the inner failure value; fails with the
    /// error unchanged when the outer layer produced the failure.
    pub fn try_unwrap_inner(self) -> (r: Result<EIn, Self>)
        ensures
            self matches NestedError::Inner(e) ==> r == Ok::<EIn, Self>(e),
            self is Outer ==> r == Err::<EIn, Self>(self),
    {
        match self {
            NestedError::Inner(e) => Ok(e),
            NestedError::Outer(e) => Err(NestedError::Outer(e)),
        }
    }

    /// Narrows the error back to the outer failure value; fails with the
    /// error unchanged when the inner layer produced the failure.
    pub fn try_unwrap_outer(self) -> (r: Result<EOut, Self>)
        ensures
            self matches NestedError::Outer(e) ==> r == Ok::<EOut, Self>(e),
            self is Inner ==> r == Err::<EOut, Self>(self),
    {
        match self {
            NestedError::Inner(e) => Err(NestedError::Inner(e)),
            NestedError::Outer(e) => Ok(e),
        }
    }

    /// Unwraps the inner failure value; the outer case is excluded by
    /// precondition.
    pub fn unwrap_inner(self) -> (r: EIn)
        requires
            self is Inner,
        ensures
            self matches NestedError::Inner(e) && r == e,
    {
        match self {
            NestedError::Inner(e) => e,
            NestedError::Outer(_) => vstd::pervasive::unreached(),
        }
    }

    /// Unwraps the outer failure value; the inner case is excluded by
    /// precondition.
    pub fn unwrap_outer(self) -> (r: EOut)
        requires
            self is Outer,
        ensures
            self matches NestedError::Outer(e) && r == e,
    {
        match self {
            NestedError::Inner(_) => vstd::pervasive::unreached(),
            NestedError::Outer(e) => e,
        }
    }
}

impl<EIn: Describe, EOut: Describe> NestedError<EIn, EOut> {
    /// The display text of the error: that of whichever variant is
    /// populated.
    pub open spec fn message_view(&self) -> Seq<char> {
        match self {
            NestedError::Inner(e) => e.erased_view().description,
            NestedError::Outer(e) => e.erased_view().description,
        }
    }

    /// The upstream cause of the error: whichever variant is populated,
    /// erased.
    pub open spec fn source_view(&self) -> ErasedView {
        match self {
            NestedError::Inner(e) => e.erased_view(),
            NestedError::Outer(e) => e.erased_view(),
        }
    }

    /// The display text of the error, delegated to whichever variant is
    /// populated.
    pub fn message(&self) -> (s: String)
        ensures
            s@ == self.message_view(),
    {
        match self {
            NestedError::Inner(e) => e.erase().description,
            NestedError::Outer(e) => e.erase().description,
        }
    }

    /// The upstream cause of the error: always present, and delegated to
    /// whichever variant is populated.
    pub fn source(&self) -> (f: Option<ErasedFailure>)
        ensures
            f matches Some(x) && x@ == self.source_view(),
    {
        match self {
            NestedError::Inner(e) => Some(e.erase()),
            NestedError::Outer(e) => Some(e.erase()),
        }
    }
}

impl<EIn: Describe, EOut: Describe> Describe for NestedError<EIn, EOut> {
    open spec fn erased_view(&self) -> ErasedView {
        ErasedView { description: self.message_view(), cause: Some(self.source_view().description) }
    }

    fn erase(&self) -> (f: ErasedFailure) {
        let inner = match self {
            NestedError::Inner(e) => e.erase(),
            NestedError::Outer(e) => e.erase(),
        };
        let cause = inner.description.clone();
        ErasedFailure { description: inner.description, cause: Some(cause) }
    }
}

/// Flattening a doubly successful value yields the innermost success, for
/// every success value.
pub proof fn lemma_flatten_success_success<T, EIn, EOut>(v: T)
    ensures
        Ok::<Result<T, EIn>, EOut>(Ok(v)).flattened() == Ok::<T, NestedError<EIn, EOut>>(v),
{
}

/// Flattening a value whose inner layer failed yields that failure tagged
/// as the inner one, for every failure value.
pub proof fn lemma_flatten_inner_failure<T, EIn, EOut>(e: EIn)
    ensures
        Ok::<Result<T, EIn>, EOut>(Err(e)).flattened() == Err::<T, NestedError<EIn, EOut>>(
            NestedError::Inner(e),
        ),
{
}

/// Flattening a value whose outer layer failed yields that failure tagged
/// as the outer one, for every failure value; no inner value exists in that
/// case, so none is inspected.
pub proof fn lemma_flatten_outer_failure<T, EIn, EOut>(e: EOut)
    ensures
        Err::<Result<T, EIn>, EOut>(e).flattened() == Err::<T, NestedError<EIn, EOut>>(
            NestedError::Outer(e),
        ),
{
}

/// The display text of a nested error equals the display text of the
/// failure value it carries, whichever layer produced it.
pub proof fn lemma_message_delegates<EIn: Describe, EOut: Describe>(ei: EIn, eo: EOut)
    ensures
        NestedError::<EIn, EOut>::Inner(ei).message_view() == ei.erased_view().description,
        NestedError::<EIn, EOut>::Outer(eo).message_view() == eo.erased_view().description,
{
}

/// The upstream cause of a nested error is the failure value it carries,
/// erased, whichever layer produced it; together with the contract of
/// [`NestedError::source`] it is always reported as present.
pub proof fn lemma_source_delegates<EIn: Describe, EOut: Describe>(ei: EIn, eo: EOut)
    ensures
        NestedError::<EIn, EOut>::Inner(ei).source_view() == ei.erased_view(),
        NestedError::<EIn, EOut>::Outer(eo).source_view() == eo.erased_view(),
{
}

} // verus!
