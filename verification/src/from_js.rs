//! Reading values back from dynamic values.

use crate::internal::js_value::JsValue;
use crate::option_like::{Maybe, Nullable};
use std::convert::Infallible;
use vstd::prelude::*;

verus! {

/// A value that can be read from a dynamic value.
pub trait FromJs: Sized {
    type Error;

    /// Whether `r` is what reading `js_value` gives.
    spec fn read(js_value: JsValue, r: Result<Self, Self::Error>) -> bool;

    /// Reads a value from `js_value`, or says why it holds none.
    fn from_js(js_value: JsValue) -> (r: Result<Self, Self::Error>)
        ensures
            Self::read(js_value, r),
    ;
}

/// A dynamic value is read as itself.
impl FromJs for JsValue {
    type Error = Infallible;

    open spec fn read(js_value: JsValue, r: Result<Self, Self::Error>) -> bool {
        r == Ok::<JsValue, Infallible>(js_value)
    }

    fn from_js(js_value: JsValue) -> (r: Result<Self, Self::Error>) {
        Ok(js_value)
    }
}

/// The unit value is read from `undefined` alone; anything else is handed
/// back as the error.
impl FromJs for () {
    type Error = JsValue;

    open spec fn read(js_value: JsValue, r: Result<Self, Self::Error>) -> bool {
        if js_value is Undefined {
            r is Ok
        } else {
            r == Err::<(), JsValue>(js_value)
        }
    }

    fn from_js(js_value: JsValue) -> (r: Result<Self, Self::Error>) {
        if js_value.is_undefined() {
            Ok(())
        } else {
            Err(js_value)
        }
    }
}

/// `undefined` and `null` are read as `None`; anything else as the value
/// that it holds.
impl<T: FromJs> FromJs for Option<T> {
    type Error = T::Error;

    open spec fn read(js_value: JsValue, r: Result<Self, Self::Error>) -> bool {
        if js_value is Undefined || js_value is Null {
            r == Ok::<Option<T>, T::Error>(None)
        } else {
            match r {
                Ok(Some(value)) => T::read(js_value, Ok(value)),
                Ok(None) => false,
                Err(error) => T::read(js_value, Err(error)),
            }
        }
    }

    fn from_js(js_value: JsValue) -> (r: Result<Self, Self::Error>) {
        if js_value.is_undefined() || js_value.is_null() {
            Ok(None)
        } else {
            match T::from_js(js_value) {
                Ok(value) => Ok(Some(value)),
                Err(error) => Err(error),
            }
        }
    }
}

/// `null` is read as `Null`; anything else as the value that it holds.
impl<T: FromJs> FromJs for Nullable<T> {
    type Error = T::Error;

    open spec fn read(js_value: JsValue, r: Result<Self, Self::Error>) -> bool {
        if js_value is Null {
            r == Ok::<Nullable<T>, T::Error>(Nullable::Null)
        } else {
            match r {
                Ok(Nullable::NonNull(value)) => T::read(js_value, Ok(value)),
                Ok(Nullable::Null) => false,
                Err(error) => T::read(js_value, Err(error)),
            }
        }
    }

    fn from_js(js_value: JsValue) -> (r: Result<Self, Self::Error>) {
        if js_value.is_null() {
            Ok(Nullable::Null)
        } else {
            match T::from_js(js_value) {
                Ok(value) => Ok(Nullable::NonNull(value)),
                Err(error) => Err(error),
            }
        }
    }
}

/// `undefined` is read as `Undefined`; anything else as the value that it
/// holds.
impl<T: FromJs> FromJs for Maybe<T> {
    type Error = T::Error;

    open spec fn read(js_value: JsValue, r: Result<Self, Self::Error>) -> bool {
        if js_value is Undefined {
            r == Ok::<Maybe<T>, T::Error>(Maybe::Undefined)
        } else {
            match r {
                Ok(Maybe::Defined(value)) => T::read(js_value, Ok(value)),
                Ok(Maybe::Undefined) => false,
                Err(error) => T::read(js_value, Err(error)),
            }
        }
    }

    fn from_js(js_value: JsValue) -> (r: Result<Self, Self::Error>) {
        if js_value.is_undefined() {
            Ok(Maybe::Undefined)
        } else {
            match T::from_js(js_value) {
                Ok(value) => Ok(Maybe::Defined(value)),
                Err(error) => Err(error),
            }
        }
    }
}

} // verus!
