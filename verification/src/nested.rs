//! Resolvers for nested `Result` values.
//!
//! A `Result` whose success slot itself holds another `Result` can be
//! collapsed into a single-level one, either keeping track of which layer
//! failed ([`FlattenErr`]) or erasing the failure's concrete type
//! ([`BoxErr`]).

mod box_err;
mod flatten_err;

pub use box_err::BoxErr;
pub use flatten_err::{FlattenErr, NestedError};
