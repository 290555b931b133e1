//! Postfix combinators for `bool`, `Option` and `Result` values.
//!
//! Every method is a thin, fully specified wrapper around a single branch on
//! the variants of the built-in container types, together with a verified
//! resolver for nested `Result` values.

use vstd::prelude::*;

pub mod internal;

pub mod boolean;
pub mod describe;
pub mod expect;
pub mod expect_none;
pub mod handle_err;
pub mod into;
pub mod into_err;
pub mod into_ok;
pub mod into_ok_or_panic;
pub mod into_some;
pub mod map;
pub mod map_to;
pub mod nested;
pub mod ok_or_panic;
pub mod or_err;
pub mod sink;
pub mod sink_err;
pub mod then_none;
pub mod unwrap_never;
pub mod unwrap_ok;

pub use boolean::ThenErr;
pub use describe::{Describe, ErasedFailure, ErasedView};
pub use expect_none::ExpectNone;
pub use handle_err::HandleErr;
pub use into_err::IntoErr;
pub use into_ok::IntoOk;
pub use into_ok_or_panic::IntoOkOrPanic;
pub use into_some::IntoSome;
pub use map::{OptionMapTo, ResultMapErrTo, ResultMapTo};
pub use map_to::MapTo;
pub use nested::{BoxErr, FlattenErr, NestedError};
pub use ok_or_panic::OkOrPanic;
pub use or_err::OrErr;
pub use sink::{Sink, SinkOption, SinkResult};
pub use sink_err::SinkErr;
pub use then_none::ThenNone;
pub use unwrap_never::UnwrapNever;
pub use unwrap_ok::UnwrapOk;

verus! {

/// A `Result` that carries no success payload.
pub type UnitResult<E> = Result<(), E>;

/// A `Result` whose failure variant cannot be constructed.
pub type InfallibleResult<T> = Result<T, core::convert::Infallible>;

} // verus!
