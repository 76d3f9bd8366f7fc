//! Dynamic values, and the builder of objects.

pub mod js_object;
pub mod js_value;

pub use js_object::JsObject;
pub use js_value::{JsValue, JsValueView};
