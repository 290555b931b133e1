//! Extension traits for checking expected `Option` values and for
//! panic-free unwrapping of infallible `Result` values.

pub mod dbg;
pub mod rls;

mod unwrap_never;

pub use unwrap_never::UnwrapNever;
