//! A verified core for embedding a JavaScript engine.
//!
//! The engine itself is reached through a C interface and stays outside
//! of this crate. What lives here is everything the bridge decides: how
//! tags map to value kinds, who owns which reference, how host values
//! and engine values are converted into one another, how a promise is
//! awaited, and how a host closure answers a call from script code.
//! Engine values are handled as plain data (`RawJsValue`, `Heap`), so
//! every rule is stated and proved over values that can be inspected.

pub mod bridge;
pub mod callback;
pub mod compile;
pub mod console;
pub mod context;
pub mod convert;
pub mod errors;
pub mod module_loader;
pub mod serde;
pub mod tag;
pub mod utils;
pub mod value;

pub use callback::Arguments;
pub use context::ContextBuilder;
pub use convert::JsValue;
pub use errors::{ContextError, ExecutionError, ValueError};
pub use tag::{JsTag, TagTable};
pub use value::{
    Heap, HeapCell, JsCompiledFunction, JsCompiledValue, JsFunction, JsModule, OwnedJsArray,
    OwnedJsAtom, OwnedJsObject, OwnedJsPromise, OwnedJsPropertyIterator, OwnedJsValue, Payload,
    PromiseState, RawJsValue, RefOp,
};
