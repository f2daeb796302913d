//! Engine values as plain data, and the typed wrappers around them.

pub mod array;
pub mod atom;
pub mod bigint;
pub mod compiled_function;
pub mod date;
pub mod function;
pub mod heap;
pub mod module;
pub mod object;
pub mod promise;
pub mod promise_state;
pub mod raw;
pub mod read;
pub mod value;

pub use array::OwnedJsArray;
pub use atom::{AtomOp, OwnedJsAtom};
pub use compiled_function::JsCompiledFunction;
pub use date::Timestamp;
pub use function::{CallRequest, JsFunction};
pub use module::{JsCompiledValue, JsModule};
pub use promise::OwnedJsPromise;
pub use bigint::{BigIntAnswer, BigIntOrI64, BigIntRequest, JsBigInt};
pub use heap::{Heap, HeapCell, Property};
pub use object::{OwnedJsObject, OwnedJsPropertyIterator, PropertyItem};
pub use promise_state::PromiseState;
pub use raw::{Payload, RawJsValue};
pub use value::{OwnedJsValue, RefCounts, RefOp};
