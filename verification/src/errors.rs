//! The error types of the bridge.

pub mod context_error;
pub mod execution_error;
pub mod value_error;

pub use context_error::ContextError;
pub use execution_error::ExecutionError;
pub use value_error::ValueError;
