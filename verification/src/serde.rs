//! Walking engine values as structured data.

pub mod de;
pub mod error;
pub mod ser;

pub use de::{Current, Deserializer, Frame, Visit};
pub use error::Error;
pub use ser::{from_js, to_js};
