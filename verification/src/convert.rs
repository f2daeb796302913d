//! Host values and their conversion to and from values in a store.

pub mod de;
pub mod js_value;
pub mod laws;
pub mod model;
pub mod ser;

pub use de::{deserialize_array, deserialize_object, deserialize_value};
pub use js_value::{JsValue, JsValueView};
pub use model::{decode, decode_items, decode_props, DecodeFault};
pub use ser::serialize_value;
