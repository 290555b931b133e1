use vstd::prelude::*;

verus! {

/// The content that an erased failure retains: its display text, and the
/// display text of its upstream cause, if it reports one.
pub struct ErasedView {
    /// The display text of the failure.
    pub description: Seq<char>,
    /// The display text of the failure's upstream cause, if any.
    pub cause: Option<Seq<char>>,
}

/// A failure value whose concrete type has been discarded.
///
/// Only a fixed capability set is retained: a display text and an optional
/// upstream-cause text.
#[derive(Debug)]
pub struct ErasedFailure {
    /// The display text of the failure.
    pub description: String,
    /// The display text of the failure's upstream cause, if any.
    pub cause: Option<String>,
}

impl View for ErasedFailure {
    type V = ErasedView;

    open spec fn view(&self) -> ErasedView {
        ErasedView { description: self.description@, cause: self.cause.deep_view() }
    }
}

impl ErasedFailure {
    /// Builds an erased failure from its display text and the display text
    /// of its upstream cause, if any.
    pub fn new(description: String, cause: Option<String>) -> (f: ErasedFailure)
        ensures
            f@ == (ErasedView { description: description@, cause: cause.deep_view() }),
    {
        ErasedFailure { description, cause }
    }

    /// The display text of the failure.
    pub fn message(&self) -> (s: &str)
        ensures
            s@ == self@.description,
    {
        self.description.as_str()
    }

    /// The display text of the failure's upstream cause, if any.
    pub fn source_message(&self) -> (c: &Option<String>)
        ensures
            c.deep_view() == self@.cause,
    {
        &self.cause
    }
}

/// The capability set of a describable failure: a display text and an
/// optional upstream-cause link, the only things that erasing the failure
/// retains.
///
/// This stands in for a generic error-reporting capability on the failure
/// types that run through the nested-`Result` resolvers.
pub trait Describe {
    /// The content the failure would keep when erased.
    spec fn erased_view(&self) -> ErasedView;

    /// Discards the failure's concrete type.
    fn erase(&self) -> (f: ErasedFailure)
        ensures
            f@ == self.erased_view(),
    ;
}

impl Describe for ErasedFailure {
    open spec fn erased_view(&self) -> ErasedView {
        self@
    }

    fn erase(&self) -> (f: ErasedFailure) {
        ErasedFailure {
            description: self.description.clone(),
            cause: match &self.cause {
                Some(c) => Some(c.clone()),
                None => None,
            },
        }
    }
}

impl Describe for &str {
    open spec fn erased_view(&self) -> ErasedView {
        ErasedView { description: self@, cause: None }
    }

    fn erase(&self) -> (f: ErasedFailure) {
        ErasedFailure { description: (*self).to_owned(), cause: None }
    }
}

impl Describe for String {
    open spec fn erased_view(&self) -> ErasedView {
        ErasedView { description: self@, cause: None }
    }

    fn erase(&self) -> (f: ErasedFailure) {
        ErasedFailure { description: self.clone(), cause: None }
    }
}

} // verus!
