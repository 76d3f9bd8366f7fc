//! Derivation of JavaScript-compatible dynamic values from described data types.

pub mod expand;
pub mod from_js;
pub mod internal;
pub mod option_like;
pub mod opts;
pub mod rename;
pub mod to_js;
pub mod util;

pub use expand::expand_derive_serialize;
pub use from_js::FromJs;
pub use option_like::{Maybe, Nullable};
pub use to_js::{Converted, ConvertedView, ToJs};
