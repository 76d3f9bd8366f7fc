//! Two kinds of optional value that differ in what their absence converts to.

use crate::internal::js_object::JsObjectView;
use crate::internal::js_value::{JsValue, JsValueView};
use crate::to_js::ToJs;
use vstd::prelude::*;
use vstd::std_specs::convert::FromSpecImpl;

verus! {

/// Corresponding to `T | null`.
///
/// `Null` converts as `null`, `NonNull(value)` as `value`.
/// As the value of a property, the property is always set.
#[derive(Copy, PartialEq, PartialOrd, Eq, Ord, Debug, Hash)]
pub enum Nullable<T> {
    Null,
    NonNull(T),
}

impl<T> Nullable<T> {
    pub fn from_option(v: Option<T>) -> (r: Self)
        ensures
            r == Self::of_option(v),
    {
        if let Some(v) = v {
            Nullable::NonNull(v)
        } else {
            Nullable::Null
        }
    }

    pub fn into_option(self) -> (r: Option<T>)
        ensures
            r == self.option(),
    {
        match self {
            Nullable::Null => None,
            Nullable::NonNull(v) => Some(v),
        }
    }

    pub fn as_ref(&self) -> (r: Nullable<&T>)
        ensures
            r == match self {
                Nullable::Null => Nullable::<&T>::Null,
                Nullable::NonNull(v) => Nullable::NonNull(v),
            },
    {
        match self {
            Nullable::Null => Nullable::Null,
            Nullable::NonNull(v) => Nullable::NonNull(v),
        }
    }

    /// The optional value that holds the same.
    pub open spec fn option(self) -> Option<T> {
        match self {
            Nullable::Null => None,
            Nullable::NonNull(v) => Some(v),
        }
    }

    /// The value that holds what the optional value `v` holds.
    pub open spec fn of_option(v: Option<T>) -> Self {
        match v {
            Some(v) => Nullable::NonNull(v),
            None => Nullable::Null,
        }
    }
}

impl<T: Clone> Clone for Nullable<T> {
    fn clone(&self) -> (r: Self)
        ensures
            self is Null <==> r is Null,
            self matches Nullable::NonNull(v) ==> r is NonNull && cloned(*v, r->NonNull_0),
    {
        match self {
            Nullable::NonNull(x) => Nullable::NonNull(x.clone()),
            Nullable::Null => Nullable::Null,
        }
    }
}

impl<T> Default for Nullable<T> {
    /// Returns `Null`.
    fn default() -> (r: Nullable<T>)
        ensures
            r is Null,
    {
        Nullable::Null
    }
}

impl<T> From<Option<T>> for Nullable<T> {
    fn from(v: Option<T>) -> (r: Self) {
        Self::from_option(v)
    }
}

impl<T> FromSpecImpl<Option<T>> for Nullable<T> {
    open spec fn obeys_from_spec() -> bool {
        true
    }

    open spec fn from_spec(v: Option<T>) -> Self {
        Self::of_option(v)
    }
}

impl<T: ToJs> ToJs for Nullable<T> {
    open spec fn converted(&self) -> JsValueView {
        match self {
            Nullable::Null => JsValueView::Null,
            Nullable::NonNull(v) => v.converted(),
        }
    }

    open spec fn property(&self) -> Option<JsValueView> {
        Some(self.converted())
    }

    fn to_js(&self) -> (r: JsValue) {
        match self {
            Nullable::Null => JsValue::Null,
            Nullable::NonNull(v) => v.to_js(),
        }
    }

    fn to_js_property_value(&self) -> (r: Option<JsValue>) {
        Some(self.to_js())
    }
}

/// Corresponding to `T | undefined`.
///
/// `Undefined` converts as `undefined`, `Defined(value)` as `value`.
/// As the value of a property, `Undefined` leaves the property unset.
#[derive(Copy, PartialEq, PartialOrd, Eq, Ord, Debug, Hash)]
pub enum Maybe<T> {
    Undefined,
    Defined(T),
}

impl<T> Maybe<T> {
    pub fn from_option(v: Option<T>) -> (r: Self)
        ensures
            r == Self::of_option(v),
    {
        if let Some(v) = v {
            Maybe::Defined(v)
        } else {
            Maybe::Undefined
        }
    }

    pub fn into_option(self) -> (r: Option<T>)
        ensures
            r == self.option(),
    {
        match self {
            Maybe::Undefined => None,
            Maybe::Defined(v) => Some(v),
        }
    }

    pub fn as_ref(&self) -> (r: Maybe<&T>)
        ensures
            r == match self {
                Maybe::Undefined => Maybe::<&T>::Undefined,
                Maybe::Defined(v) => Maybe::Defined(v),
            },
    {
        match self {
            Maybe::Undefined => Maybe::Undefined,
            Maybe::Defined(v) => Maybe::Defined(v),
        }
    }

    /// The optional value that holds the same.
    pub open spec fn option(self) -> Option<T> {
        match self {
            Maybe::Undefined => None,
            Maybe::Defined(v) => Some(v),
        }
    }

    /// The value that holds what the optional value `v` holds.
    pub open spec fn of_option(v: Option<T>) -> Self {
        match v {
            Some(v) => Maybe::Defined(v),
            None => Maybe::Undefined,
        }
    }
}

impl<T: Clone> Clone for Maybe<T> {
    fn clone(&self) -> (r: Self)
        ensures
            self is Undefined <==> r is Undefined,
            self matches Maybe::Defined(v) ==> r is Defined && cloned(*v, r->Defined_0),
    {
        match self {
            Maybe::Defined(x) => Maybe::Defined(x.clone()),
            Maybe::Undefined => Maybe::Undefined,
        }
    }
}

impl<T> Default for Maybe<T> {
    /// Returns `Undefined`.
    fn default() -> (r: Maybe<T>)
        ensures
            r is Undefined,
    {
        Maybe::Undefined
    }
}

impl<T> From<Option<T>> for Maybe<T> {
    fn from(v: Option<T>) -> (r: Self) {
        Self::from_option(v)
    }
}

impl<T> FromSpecImpl<Option<T>> for Maybe<T> {
    open spec fn obeys_from_spec() -> bool {
        true
    }

    open spec fn from_spec(v: Option<T>) -> Self {
        Self::of_option(v)
    }
}

impl<T: ToJs> ToJs for Maybe<T> {
    open spec fn converted(&self) -> JsValueView {
        match self {
            Maybe::Undefined => JsValueView::Undefined,
            Maybe::Defined(v) => v.converted(),
        }
    }

    open spec fn property(&self) -> Option<JsValueView> {
        match self {
            Maybe::Undefined => None,
            Maybe::Defined(v) => Some(v.converted()),
        }
    }

    fn to_js(&self) -> (r: JsValue) {
        match self {
            Maybe::Undefined => JsValue::Undefined,
            Maybe::Defined(v) => v.to_js(),
        }
    }

    fn to_js_property_value(&self) -> (r: Option<JsValue>) {
        match self {
            Maybe::Undefined => None,
            Maybe::Defined(v) => Some(v.to_js()),
        }
    }
}

/// What the absent case of each kind of optional value converts to.
///
/// `Null` is `null` wherever it stands, and sets the property that holds
/// it. `Undefined` is `undefined` where it stands by itself, and leaves the
/// property that holds it unset, as `None` does.
pub proof fn lemma_absent_values<T: ToJs>(object: JsObjectView, key: Seq<char>)
    requires
        object.wf(),
    ensures
        Nullable::<T>::Null.converted() == JsValueView::Null,
        Nullable::<T>::Null.property() == Some(JsValueView::Null),
        object.set_if_present(key, Nullable::<T>::Null.property()).get(key) == Some(
            JsValueView::Null,
        ),
        Maybe::<T>::Undefined.converted() == JsValueView::Undefined,
        Maybe::<T>::Undefined.property() is None,
        object.set_if_present(key, Maybe::<T>::Undefined.property()) == object,
        Option::<T>::None.converted() == JsValueView::Undefined,
        Option::<T>::None.property() is None,
        object.set_if_present(key, Option::<T>::None.property()) == object,
{
    object.lemma_set(key, JsValueView::Null);
}

/// What the present case of each kind of optional value converts to: what
/// the value inside converts to, by itself and as the value of a property.
pub proof fn lemma_present_values<T: ToJs>(value: T)
    ensures
        Nullable::NonNull(value).converted() == value.converted(),
        Nullable::NonNull(value).property() == Some(value.converted()),
        Maybe::Defined(value).converted() == value.converted(),
        Maybe::Defined(value).property() == Some(value.converted()),
        Some(value).converted() == value.converted(),
        Some(value).property() == Some(value.converted()),
{
}

} // verus!
