//! Conversion of values into dynamic values.

use crate::internal::js_value::{lemma_array_view, JsValue, JsValueView};
use crate::util::outcome::lemma_deep_push;
use vstd::prelude::*;

verus! {

/// A value that converts into a dynamic value.
pub trait ToJs {
    /// What the value converts to.
    spec fn converted(&self) -> JsValueView;

    /// What the value is where it stands as the value of a property:
    /// `None` leaves the property unset.
    spec fn property(&self) -> Option<JsValueView>;

    /// Converts the value.
    fn to_js(&self) -> (r: JsValue)
        ensures
            r@ == self.converted(),
    ;

    /// Returns `None` to leave the property unset, `Some(value)` to set it.
    fn to_js_property_value(&self) -> (r: Option<JsValue>)
        ensures
            r.deep_view() == self.property(),
    ;
}

/// What the two conversions of one value give.
#[derive(Debug)]
pub struct Converted {
    /// The dynamic value that the value converts to.
    pub value: JsValue,
    /// The value of a property that holds the value, if the property is set.
    pub property: Option<JsValue>,
}

/// The mathematical value of a [`Converted`].
pub ghost struct ConvertedView {
    pub value: JsValueView,
    pub property: Option<JsValueView>,
}

impl View for Converted {
    type V = ConvertedView;

    open spec fn view(&self) -> ConvertedView {
        ConvertedView { value: self.value@, property: self.property.deep_view() }
    }
}

impl DeepView for Converted {
    type V = ConvertedView;

    open spec fn deep_view(&self) -> ConvertedView {
        self@
    }
}

impl Converted {
    /// Both conversions of `value`.
    pub fn of<T: ToJs>(value: &T) -> (r: Converted)
        ensures
            r@ == (ConvertedView { value: value.converted(), property: value.property() }),
    {
        Converted { value: value.to_js(), property: value.to_js_property_value() }
    }
}

/// `Some(value)` converts as `value`, `None` as `undefined`.
/// As the value of a property, `None` leaves the property unset.
impl<T: ToJs> ToJs for Option<T> {
    open spec fn converted(&self) -> JsValueView {
        match self {
            Some(v) => v.converted(),
            None => JsValueView::Undefined,
        }
    }

    open spec fn property(&self) -> Option<JsValueView> {
        match self {
            Some(v) => Some(v.converted()),
            None => None,
        }
    }

    fn to_js(&self) -> (r: JsValue) {
        if let Some(v) = self {
            v.to_js()
        } else {
            JsValue::Undefined
        }
    }

    fn to_js_property_value(&self) -> (r: Option<JsValue>) {
        match self {
            Some(v) => Some(v.to_js()),
            None => None,
        }
    }
}

impl ToJs for bool {
    open spec fn converted(&self) -> JsValueView {
        JsValueView::Bool(*self)
    }

    open spec fn property(&self) -> Option<JsValueView> {
        Some(self.converted())
    }

    fn to_js(&self) -> (r: JsValue) {
        JsValue::Bool(*self)
    }

    fn to_js_property_value(&self) -> (r: Option<JsValue>) {
        Some(self.to_js())
    }
}

impl ToJs for String {
    open spec fn converted(&self) -> JsValueView {
        JsValueView::String(self@)
    }

    open spec fn property(&self) -> Option<JsValueView> {
        Some(self.converted())
    }

    fn to_js(&self) -> (r: JsValue) {
        JsValue::String(self.clone())
    }

    fn to_js_property_value(&self) -> (r: Option<JsValue>) {
        Some(self.to_js())
    }
}

impl ToJs for str {
    open spec fn converted(&self) -> JsValueView {
        JsValueView::String(self@)
    }

    open spec fn property(&self) -> Option<JsValueView> {
        Some(self.converted())
    }

    fn to_js(&self) -> (r: JsValue) {
        JsValue::from_str(self)
    }

    fn to_js_property_value(&self) -> (r: Option<JsValue>) {
        Some(self.to_js())
    }
}

impl ToJs for &str {
    open spec fn converted(&self) -> JsValueView {
        JsValueView::String(self@)
    }

    open spec fn property(&self) -> Option<JsValueView> {
        Some(self.converted())
    }

    fn to_js(&self) -> (r: JsValue) {
        JsValue::from_str(self)
    }

    fn to_js_property_value(&self) -> (r: Option<JsValue>) {
        Some(self.to_js())
    }
}

/// A reference converts as what it refers to.
impl<T: ToJs> ToJs for &T {
    open spec fn converted(&self) -> JsValueView {
        (**self).converted()
    }

    open spec fn property(&self) -> Option<JsValueView> {
        Some(self.converted())
    }

    fn to_js(&self) -> (r: JsValue) {
        (**self).to_js()
    }

    fn to_js_property_value(&self) -> (r: Option<JsValue>) {
        Some(self.to_js())
    }
}

/// The unit value converts as `undefined`.
impl ToJs for () {
    open spec fn converted(&self) -> JsValueView {
        JsValueView::Undefined
    }

    open spec fn property(&self) -> Option<JsValueView> {
        Some(self.converted())
    }

    fn to_js(&self) -> (r: JsValue) {
        JsValue::Undefined
    }

    fn to_js_property_value(&self) -> (r: Option<JsValue>) {
        Some(self.to_js())
    }
}

/// A dynamic value converts as itself.
impl ToJs for JsValue {
    open spec fn converted(&self) -> JsValueView {
        self@
    }

    open spec fn property(&self) -> Option<JsValueView> {
        Some(self.converted())
    }

    fn to_js(&self) -> (r: JsValue) {
        self.clone()
    }

    fn to_js_property_value(&self) -> (r: Option<JsValue>) {
        Some(self.to_js())
    }
}

impl<T: ToJs> ToJs for Box<T> {
    open spec fn converted(&self) -> JsValueView {
        (**self).converted()
    }

    open spec fn property(&self) -> Option<JsValueView> {
        Some(self.converted())
    }

    fn to_js(&self) -> (r: JsValue) {
        (**self).to_js()
    }

    fn to_js_property_value(&self) -> (r: Option<JsValue>) {
        Some(self.to_js())
    }
}

/// A list converts as the array of its converted items.
impl<T: ToJs> ToJs for Vec<T> {
    open spec fn converted(&self) -> JsValueView {
        JsValueView::Array(Seq::new(self@.len(), |i: int| self@[i].converted()))
    }

    open spec fn property(&self) -> Option<JsValueView> {
        Some(self.converted())
    }

    fn to_js(&self) -> (r: JsValue) {
        let mut items: Vec<JsValue> = Vec::new();
        let mut i: usize = 0;
        while i < self.len()
            invariant
                i <= self.len(),
                items.deep_view() == Seq::new(i as nat, |j: int| self@[j].converted()),
            decreases self.len() - i,
        {
            let item = self[i].to_js();
            proof {
                lemma_deep_push(items@, item);
                assert(Seq::new(i as nat, |j: int| self@[j].converted()).push(item@) =~= Seq::new(
                    (i + 1) as nat,
                    |j: int| self@[j].converted(),
                ));
            }
            items.push(item);
            i += 1;
        }
        proof {
            lemma_array_view(items);
        }
        JsValue::Array(items)
    }

    fn to_js_property_value(&self) -> (r: Option<JsValue>) {
        Some(self.to_js())
    }
}

/// A slice converts as the array of its converted items.
impl<T: ToJs> ToJs for &[T] {
    open spec fn converted(&self) -> JsValueView {
        JsValueView::Array(Seq::new(self@.len(), |i: int| self@[i].converted()))
    }

    open spec fn property(&self) -> Option<JsValueView> {
        Some(self.converted())
    }

    fn to_js(&self) -> (r: JsValue) {
        let mut items: Vec<JsValue> = Vec::new();
        let mut i: usize = 0;
        while i < self.len()
            invariant
                i <= self.len(),
                items.deep_view() == Seq::new(i as nat, |j: int| self@[j].converted()),
            decreases self.len() - i,
        {
            let item = self[i].to_js();
            proof {
                lemma_deep_push(items@, item);
                assert(Seq::new(i as nat, |j: int| self@[j].converted()).push(item@) =~= Seq::new(
                    (i + 1) as nat,
                    |j: int| self@[j].converted(),
                ));
            }
            items.push(item);
            i += 1;
        }
        proof {
            lemma_array_view(items);
        }
        JsValue::Array(items)
    }

    fn to_js_property_value(&self) -> (r: Option<JsValue>) {
        Some(self.to_js())
    }
}

/// An array converts as the array of its converted items.
impl<N: ToJs, const S: usize> ToJs for [N; S] {
    open spec fn converted(&self) -> JsValueView {
        JsValueView::Array(Seq::new(self@.len(), |i: int| self@[i].converted()))
    }

    open spec fn property(&self) -> Option<JsValueView> {
        Some(self.converted())
    }

    fn to_js(&self) -> (r: JsValue) {
        let mut items: Vec<JsValue> = Vec::new();
        let mut i: usize = 0;
        while i < S
            invariant
                i <= S,
                self@.len() == S,
                items.deep_view() == Seq::new(i as nat, |j: int| self@[j].converted()),
            decreases S - i,
        {
            let item = self[i].to_js();
            proof {
                lemma_deep_push(items@, item);
                assert(Seq::new(i as nat, |j: int| self@[j].converted()).push(item@) =~= Seq::new(
                    (i + 1) as nat,
                    |j: int| self@[j].converted(),
                ));
            }
            items.push(item);
            i += 1;
        }
        proof {
            lemma_array_view(items);
        }
        JsValue::Array(items)
    }

    fn to_js_property_value(&self) -> (r: Option<JsValue>) {
        Some(self.to_js())
    }
}

/// A tuple of 1 converts as the array of its converted items.
impl<T0: ToJs> ToJs for (T0,) {
    open spec fn converted(&self) -> JsValueView {
        JsValueView::Array(seq![self.0.converted()])
    }

    open spec fn property(&self) -> Option<JsValueView> {
        Some(self.converted())
    }

    fn to_js(&self) -> (r: JsValue) {
        let mut items: Vec<JsValue> = Vec::new();
        assert(items.deep_view() =~= Seq::empty());
        let item = self.0.to_js();
        proof {
            lemma_deep_push(items@, item);
        }
        items.push(item);
        proof {
            assert(items.deep_view() =~= seq![self.0.converted()]);
            lemma_array_view(items);
        }
        JsValue::Array(items)
    }

    fn to_js_property_value(&self) -> (r: Option<JsValue>) {
        Some(self.to_js())
    }
}

/// A tuple of 2 converts as the array of its converted items.
impl<T0: ToJs, T1: ToJs> ToJs for (T0, T1,) {
    open spec fn converted(&self) -> JsValueView {
        JsValueView::Array(seq![self.0.converted(), self.1.converted()])
    }

    open spec fn property(&self) -> Option<JsValueView> {
        Some(self.converted())
    }

    fn to_js(&self) -> (r: JsValue) {
        let mut items: Vec<JsValue> = Vec::new();
        assert(items.deep_view() =~= Seq::empty());
        let item = self.0.to_js();
        proof {
            lemma_deep_push(items@, item);
        }
        items.push(item);
        let item = self.1.to_js();
        proof {
            lemma_deep_push(items@, item);
        }
        items.push(item);
        proof {
            assert(items.deep_view() =~= seq![self.0.converted(), self.1.converted()]);
            lemma_array_view(items);
        }
        JsValue::Array(items)
    }

    fn to_js_property_value(&self) -> (r: Option<JsValue>) {
        Some(self.to_js())
    }
}

/// A tuple of 3 converts as the array of its converted items.
impl<T0: ToJs, T1: ToJs, T2: ToJs> ToJs for (T0, T1, T2,) {
    open spec fn converted(&self) -> JsValueView {
        JsValueView::Array(seq![self.0.converted(), self.1.converted(), self.2.converted()])
    }

    open spec fn property(&self) -> Option<JsValueView> {
        Some(self.converted())
    }

    fn to_js(&self) -> (r: JsValue) {
        let mut items: Vec<JsValue> = Vec::new();
        assert(items.deep_view() =~= Seq::empty());
        let item = self.0.to_js();
        proof {
            lemma_deep_push(items@, item);
        }
        items.push(item);
        let item = self.1.to_js();
        proof {
            lemma_deep_push(items@, item);
        }
        items.push(item);
        let item = self.2.to_js();
        proof {
            lemma_deep_push(items@, item);
        }
        items.push(item);
        proof {
            assert(items.deep_view() =~= seq![self.0.converted(), self.1.converted(), self.2.converted()]);
            lemma_array_view(items);
        }
        JsValue::Array(items)
    }

    fn to_js_property_value(&self) -> (r: Option<JsValue>) {
        Some(self.to_js())
    }
}

/// A tuple of 4 converts as the array of its converted items.
impl<T0: ToJs, T1: ToJs, T2: ToJs, T3: ToJs> ToJs for (T0, T1, T2, T3,) {
    open spec fn converted(&self) -> JsValueView {
        JsValueView::Array(seq![self.0.converted(), self.1.converted(), self.2.converted(), self.3.converted()])
    }

    open spec fn property(&self) -> Option<JsValueView> {
        Some(self.converted())
    }

    fn to_js(&self) -> (r: JsValue) {
        let mut items: Vec<JsValue> = Vec::new();
        assert(items.deep_view() =~= Seq::empty());
        let item = self.0.to_js();
        proof {
            lemma_deep_push(items@, item);
        }
        items.push(item);
        let item = self.1.to_js();
        proof {
            lemma_deep_push(items@, item);
        }
        items.push(item);
        let item = self.2.to_js();
        proof {
            lemma_deep_push(items@, item);
        }
        items.push(item);
        let item = self.3.to_js();
        proof {
            lemma_deep_push(items@, item);
        }
        items.push(item);
        proof {
            assert(items.deep_view() =~= seq![self.0.converted(), self.1.converted(), self.2.converted(), self.3.converted()]);
            lemma_array_view(items);
        }
        JsValue::Array(items)
    }

    fn to_js_property_value(&self) -> (r: Option<JsValue>) {
        Some(self.to_js())
    }
}

/// A tuple of 5 converts as the array of its converted items.
impl<T0: ToJs, T1: ToJs, T2: ToJs, T3: ToJs, T4: ToJs> ToJs for (T0, T1, T2, T3, T4,) {
    open spec fn converted(&self) -> JsValueView {
        JsValueView::Array(seq![self.0.converted(), self.1.converted(), self.2.converted(), self.3.converted(), self.4.converted()])
    }

    open spec fn property(&self) -> Option<JsValueView> {
        Some(self.converted())
    }

    fn to_js(&self) -> (r: JsValue) {
        let mut items: Vec<JsValue> = Vec::new();
        assert(items.deep_view() =~= Seq::empty());
        let item = self.0.to_js();
        proof {
            lemma_deep_push(items@, item);
        }
        items.push(item);
        let item = self.1.to_js();
        proof {
            lemma_deep_push(items@, item);
        }
        items.push(item);
        let item = self.2.to_js();
        proof {
            lemma_deep_push(items@, item);
        }
        items.push(item);
        let item = self.3.to_js();
        proof {
            lemma_deep_push(items@, item);
        }
        items.push(item);
        let item = self.4.to_js();
        proof {
            lemma_deep_push(items@, item);
        }
        items.push(item);
        proof {
            assert(items.deep_view() =~= seq![self.0.converted(), self.1.converted(), self.2.converted(), self.3.converted(), self.4.converted()]);
            lemma_array_view(items);
        }
        JsValue::Array(items)
    }

    fn to_js_property_value(&self) -> (r: Option<JsValue>) {
        Some(self.to_js())
    }
}

/// A tuple of 6 converts as the array of its converted items.
impl<T0: ToJs, T1: ToJs, T2: ToJs, T3: ToJs, T4: ToJs, T5: ToJs> ToJs for (T0, T1, T2, T3, T4, T5,) {
    open spec fn converted(&self) -> JsValueView {
        JsValueView::Array(seq![self.0.converted(), self.1.converted(), self.2.converted(), self.3.converted(), self.4.converted(), self.5.converted()])
    }

    open spec fn property(&self) -> Option<JsValueView> {
        Some(self.converted())
    }

    fn to_js(&self) -> (r: JsValue) {
        let mut items: Vec<JsValue> = Vec::new();
        assert(items.deep_view() =~= Seq::empty());
        let item = self.0.to_js();
        proof {
            lemma_deep_push(items@, item);
        }
        items.push(item);
        let item = self.1.to_js();
        proof {
            lemma_deep_push(items@, item);
        }
        items.push(item);
        let item = self.2.to_js();
        proof {
            lemma_deep_push(items@, item);
        }
        items.push(item);
        let item = self.3.to_js();
        proof {
            lemma_deep_push(items@, item);
        }
        items.push(item);
        let item = self.4.to_js();
        proof {
            lemma_deep_push(items@, item);
        }
        items.push(item);
        let item = self.5.to_js();
        proof {
            lemma_deep_push(items@, item);
        }
        items.push(item);
        proof {
            assert(items.deep_view() =~= seq![self.0.converted(), self.1.converted(), self.2.converted(), self.3.converted(), self.4.converted(), self.5.converted()]);
            lemma_array_view(items);
        }
        JsValue::Array(items)
    }

    fn to_js_property_value(&self) -> (r: Option<JsValue>) {
        Some(self.to_js())
    }
}

/// A tuple of 7 converts as the array of its converted items.
impl<T0: ToJs, T1: ToJs, T2: ToJs, T3: ToJs, T4: ToJs, T5: ToJs, T6: ToJs> ToJs for (T0, T1, T2, T3, T4, T5, T6,) {
    open spec fn converted(&self) -> JsValueView {
        JsValueView::Array(seq![self.0.converted(), self.1.converted(), self.2.converted(), self.3.converted(), self.4.converted(), self.5.converted(), self.6.converted()])
    }

    open spec fn property(&self) -> Option<JsValueView> {
        Some(self.converted())
    }

    fn to_js(&self) -> (r: JsValue) {
        let mut items: Vec<JsValue> = Vec::new();
        assert(items.deep_view() =~= Seq::empty());
        let item = self.0.to_js();
        proof {
            lemma_deep_push(items@, item);
        }
        items.push(item);
        let item = self.1.to_js();
        proof {
            lemma_deep_push(items@, item);
        }
        items.push(item);
        let item = self.2.to_js();
        proof {
            lemma_deep_push(items@, item);
        }
        items.push(item);
        let item = self.3.to_js();
        proof {
            lemma_deep_push(items@, item);
        }
        items.push(item);
        let item = self.4.to_js();
        proof {
            lemma_deep_push(items@, item);
        }
        items.push(item);
        let item = self.5.to_js();
        proof {
            lemma_deep_push(items@, item);
        }
        items.push(item);
        let item = self.6.to_js();
        proof {
            lemma_deep_push(items@, item);
        }
        items.push(item);
        proof {
            assert(items.deep_view() =~= seq![self.0.converted(), self.1.converted(), self.2.converted(), self.3.converted(), self.4.converted(), self.5.converted(), self.6.converted()]);
            lemma_array_view(items);
        }
        JsValue::Array(items)
    }

    fn to_js_property_value(&self) -> (r: Option<JsValue>) {
        Some(self.to_js())
    }
}

/// A tuple of 8 converts as the array of its converted items.
impl<T0: ToJs, T1: ToJs, T2: ToJs, T3: ToJs, T4: ToJs, T5: ToJs, T6: ToJs, T7: ToJs> ToJs for (T0, T1, T2, T3, T4, T5, T6, T7,) {
    open spec fn converted(&self) -> JsValueView {
        JsValueView::Array(seq![self.0.converted(), self.1.converted(), self.2.converted(), self.3.converted(), self.4.converted(), self.5.converted(), self.6.converted(), self.7.converted()])
    }

    open spec fn property(&self) -> Option<JsValueView> {
        Some(self.converted())
    }

    fn to_js(&self) -> (r: JsValue) {
        let mut items: Vec<JsValue> = Vec::new();
        assert(items.deep_view() =~= Seq::empty());
        let item = self.0.to_js();
        proof {
            lemma_deep_push(items@, item);
        }
        items.push(item);
        let item = self.1.to_js();
        proof {
            lemma_deep_push(items@, item);
        }
        items.push(item);
        let item = self.2.to_js();
        proof {
            lemma_deep_push(items@, item);
        }
        items.push(item);
        let item = self.3.to_js();
        proof {
            lemma_deep_push(items@, item);
        }
        items.push(item);
        let item = self.4.to_js();
        proof {
            lemma_deep_push(items@, item);
        }
        items.push(item);
        let item = self.5.to_js();
        proof {
            lemma_deep_push(items@, item);
        }
        items.push(item);
        let item = self.6.to_js();
        proof {
            lemma_deep_push(items@, item);
        }
        items.push(item);
        let item = self.7.to_js();
        proof {
            lemma_deep_push(items@, item);
        }
        items.push(item);
        proof {
            assert(items.deep_view() =~= seq![self.0.converted(), self.1.converted(), self.2.converted(), self.3.converted(), self.4.converted(), self.5.converted(), self.6.converted(), self.7.converted()]);
            lemma_array_view(items);
        }
        JsValue::Array(items)
    }

    fn to_js_property_value(&self) -> (r: Option<JsValue>) {
        Some(self.to_js())
    }
}

/// A tuple of 9 converts as the array of its converted items.
impl<T0: ToJs, T1: ToJs, T2: ToJs, T3: ToJs, T4: ToJs, T5: ToJs, T6: ToJs, T7: ToJs, T8: ToJs> ToJs for (T0, T1, T2, T3, T4, T5, T6, T7, T8,) {
    open spec fn converted(&self) -> JsValueView {
        JsValueView::Array(seq![self.0.converted(), self.1.converted(), self.2.converted(), self.3.converted(), self.4.converted(), self.5.converted(), self.6.converted(), self.7.converted(), self.8.converted()])
    }

    open spec fn property(&self) -> Option<JsValueView> {
        Some(self.converted())
    }

    fn to_js(&self) -> (r: JsValue) {
        let mut items: Vec<JsValue> = Vec::new();
        assert(items.deep_view() =~= Seq::empty());
        let item = self.0.to_js();
        proof {
            lemma_deep_push(items@, item);
        }
        items.push(item);
        let item = self.1.to_js();
        proof {
            lemma_deep_push(items@, item);
        }
        items.push(item);
        let item = self.2.to_js();
        proof {
            lemma_deep_push(items@, item);
        }
        items.push(item);
        let item = self.3.to_js();
        proof {
            lemma_deep_push(items@, item);
        }
        items.push(item);
        let item = self.4.to_js();
        proof {
            lemma_deep_push(items@, item);
        }
        items.push(item);
        let item = self.5.to_js();
        proof {
            lemma_deep_push(items@, item);
        }
        items.push(item);
        let item = self.6.to_js();
        proof {
            lemma_deep_push(items@, item);
        }
        items.push(item);
        let item = self.7.to_js();
        proof {
            lemma_deep_push(items@, item);
        }
        items.push(item);
        let item = self.8.to_js();
        proof {
            lemma_deep_push(items@, item);
        }
        items.push(item);
        proof {
            assert(items.deep_view() =~= seq![self.0.converted(), self.1.converted(), self.2.converted(), self.3.converted(), self.4.converted(), self.5.converted(), self.6.converted(), self.7.converted(), self.8.converted()]);
            lemma_array_view(items);
        }
        JsValue::Array(items)
    }

    fn to_js_property_value(&self) -> (r: Option<JsValue>) {
        Some(self.to_js())
    }
}

/// A tuple of 10 converts as the array of its converted items.
impl<T0: ToJs, T1: ToJs, T2: ToJs, T3: ToJs, T4: ToJs, T5: ToJs, T6: ToJs, T7: ToJs, T8: ToJs, T9: ToJs> ToJs for (T0, T1, T2, T3, T4, T5, T6, T7, T8, T9,) {
    open spec fn converted(&self) -> JsValueView {
        JsValueView::Array(seq![self.0.converted(), self.1.converted(), self.2.converted(), self.3.converted(), self.4.converted(), self.5.converted(), self.6.converted(), self.7.converted(), self.8.converted(), self.9.converted()])
    }

    open spec fn property(&self) -> Option<JsValueView> {
        Some(self.converted())
    }

    fn to_js(&self) -> (r: JsValue) {
        let mut items: Vec<JsValue> = Vec::new();
        assert(items.deep_view() =~= Seq::empty());
        let item = self.0.to_js();
        proof {
            lemma_deep_push(items@, item);
        }
        items.push(item);
        let item = self.1.to_js();
        proof {
            lemma_deep_push(items@, item);
        }
        items.push(item);
        let item = self.2.to_js();
        proof {
            lemma_deep_push(items@, item);
        }
        items.push(item);
        let item = self.3.to_js();
        proof {
            lemma_deep_push(items@, item);
        }
        items.push(item);
        let item = self.4.to_js();
        proof {
            lemma_deep_push(items@, item);
        }
        items.push(item);
        let item = self.5.to_js();
        proof {
            lemma_deep_push(items@, item);
        }
        items.push(item);
        let item = self.6.to_js();
        proof {
            lemma_deep_push(items@, item);
        }
        items.push(item);
        let item = self.7.to_js();
        proof {
            lemma_deep_push(items@, item);
        }
        items.push(item);
        let item = self.8.to_js();
        proof {
            lemma_deep_push(items@, item);
        }
        items.push(item);
        let item = self.9.to_js();
        proof {
            lemma_deep_push(items@, item);
        }
        items.push(item);
        proof {
            assert(items.deep_view() =~= seq![self.0.converted(), self.1.converted(), self.2.converted(), self.3.converted(), self.4.converted(), self.5.converted(), self.6.converted(), self.7.converted(), self.8.converted(), self.9.converted()]);
            lemma_array_view(items);
        }
        JsValue::Array(items)
    }

    fn to_js_property_value(&self) -> (r: Option<JsValue>) {
        Some(self.to_js())
    }
}

} // verus!
