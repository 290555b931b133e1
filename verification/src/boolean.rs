//! Extension traits for `bool`.

pub mod dbg;
pub mod rls;

mod then;
mod then_err;

pub use then::Then;
pub use then_err::ThenErr;
