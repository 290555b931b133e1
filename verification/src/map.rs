//! Extension traits that replace a container's value with a fixed one.

pub mod option_map_to;
pub mod result_map_err_to;
pub mod result_map_to;

pub use option_map_to::OptionMapTo;
pub use result_map_err_to::ResultMapErrTo;
pub use result_map_to::ResultMapTo;
