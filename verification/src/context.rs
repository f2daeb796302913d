//! What a context decides: how a value is awaited, how an exception
//! is told from running out of memory, and what a context is built with.

pub mod builder;
pub mod eval;
pub mod exception;
pub mod lifecycle;
pub mod resolver;
pub mod state;

pub use builder::ContextBuilder;
pub use eval::{EvalMode, EvalRequest, JobStep};
pub use exception::{ensure_no_excpetion, get_exception, PendingException};
pub use lifecycle::EngineCommand;
pub use state::{ContextMove, ContextState};
pub use resolver::{resolve_start, resolve_step, ResolveAction, ResolveEvent, ResolveState};
