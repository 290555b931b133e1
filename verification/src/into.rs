//! Extension traits for converting plain values into `Result` and `Option`
//! containers.

pub mod into_none;
pub mod into_ok;
pub mod into_option;
pub mod into_result;
pub mod into_some;

pub use into_none::IntoNone;
pub use into_ok::IntoOk;
pub use into_option::IntoOption;
pub use into_result::IntoResult;
pub use into_some::IntoSome;
