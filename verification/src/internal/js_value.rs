//! Dynamic values.

use crate::util::outcome::lemma_deep_push;
use vstd::prelude::*;

verus! {

/// A dynamic value: what a conversion produces.
#[derive(Debug, PartialEq, Eq)]
pub enum JsValue {
    Undefined,
    Null,
    Bool(bool),
    /// A number, given by the bits of its double-precision form.
    Number(u64),
    String(String),
    Array(Vec<JsValue>),
    /// An object, given by its properties in the order in which they were
    /// first set.
    Object(Vec<(String, JsValue)>),
}

/// The mathematical value of a [`JsValue`].
pub ghost enum JsValueView {
    Undefined,
    Null,
    Bool(bool),
    Number(u64),
    String(Seq<char>),
    Array(Seq<JsValueView>),
    Object(Seq<(Seq<char>, JsValueView)>),
}

impl JsValue {
    /// The mathematical value: that of every part, part by part.
    pub open spec fn model(&self) -> JsValueView
        decreases self,
    {
        match self {
            JsValue::Undefined => JsValueView::Undefined,
            JsValue::Null => JsValueView::Null,
            JsValue::Bool(b) => JsValueView::Bool(*b),
            JsValue::Number(bits) => JsValueView::Number(*bits),
            JsValue::String(s) => JsValueView::String(s@),
            JsValue::Array(items) => JsValueView::Array(
                Seq::new(
                    items@.len(),
                    |i: int|
                        if 0 <= i < items@.len() {
                            items@[i].model()
                        } else {
                            JsValueView::Undefined
                        },
                ),
            ),
            JsValue::Object(props) => JsValueView::Object(
                Seq::new(
                    props@.len(),
                    |i: int|
                        if 0 <= i < props@.len() {
                            (props@[i].0@, props@[i].1.model())
                        } else {
                            (Seq::empty(), JsValueView::Undefined)
                        },
                ),
            ),
        }
    }
}

impl View for JsValue {
    type V = JsValueView;

    open spec fn view(&self) -> JsValueView {
        self.model()
    }
}

impl DeepView for JsValue {
    type V = JsValueView;

    open spec fn deep_view(&self) -> JsValueView {
        self@
    }
}

/// The view of an array is the list of the views of its items.
pub proof fn lemma_array_view(items: Vec<JsValue>)
    ensures
        JsValue::Array(items)@ == JsValueView::Array(items.deep_view()),
{
    reveal_with_fuel(JsValue::model, 2);
    assert(JsValue::Array(items)@->Array_0 =~= items.deep_view());
}

/// The view of an object is the list of the views of its properties.
pub proof fn lemma_object_view(props: Vec<(String, JsValue)>)
    ensures
        JsValue::Object(props)@ == JsValueView::Object(props.deep_view()),
{
    reveal_with_fuel(JsValue::model, 2);
    assert(JsValue::Object(props)@->Object_0 =~= props.deep_view());
}

impl Clone for JsValue {
    #[verifier::loop_isolation(false)]
    fn clone(&self) -> (r: Self)
        ensures
            r@ == self@,
        decreases self,
    {
        match self {
            JsValue::Undefined => JsValue::Undefined,
            JsValue::Null => JsValue::Null,
            JsValue::Bool(b) => JsValue::Bool(*b),
            JsValue::Number(bits) => JsValue::Number(*bits),
            JsValue::String(s) => JsValue::String(s.clone()),
            JsValue::Array(items) => {
                let mut copy: Vec<JsValue> = Vec::new();
                let mut i: usize = 0;
                while i < items.len()
                    invariant
                        i <= items.len(),
                        copy.deep_view() == items.deep_view().take(i as int),
                    decreases items.len() - i,
                {
                    let item = items[i].clone();
                    proof {
                        lemma_deep_push(copy@, item);
                        assert(items.deep_view().take(i as int).push(item@)
                            =~= items.deep_view().take(i + 1));
                    }
                    copy.push(item);
                    i += 1;
                }
                proof {
                    assert(items.deep_view().take(items.len() as int) =~= items.deep_view());
                    lemma_array_view(copy);
                    lemma_array_view(*items);
                }
                JsValue::Array(copy)
            },
            JsValue::Object(props) => {
                let mut copy: Vec<(String, JsValue)> = Vec::new();
                let mut i: usize = 0;
                while i < props.len()
                    invariant
                        i <= props.len(),
                        copy.deep_view() == props.deep_view().take(i as int),
                    decreases props.len() - i,
                {
                    let prop = (props[i].0.clone(), props[i].1.clone());
                    proof {
                        lemma_deep_push(copy@, prop);
                        assert(props.deep_view().take(i as int).push(prop.deep_view())
                            =~= props.deep_view().take(i + 1));
                    }
                    copy.push(prop);
                    i += 1;
                }
                proof {
                    assert(props.deep_view().take(props.len() as int) =~= props.deep_view());
                    lemma_object_view(copy);
                    lemma_object_view(*props);
                }
                JsValue::Object(copy)
            },
        }
    }
}

impl JsValue {
    /// Whether the value is `undefined`.
    pub fn is_undefined(&self) -> (r: bool)
        ensures
            r == (self is Undefined),
            r == (self@ is Undefined),
    {
        matches!(self, JsValue::Undefined)
    }

    /// Whether the value is `null`.
    pub fn is_null(&self) -> (r: bool)
        ensures
            r == (self is Null),
            r == (self@ is Null),
    {
        matches!(self, JsValue::Null)
    }

    /// The string `s` as a dynamic value.
    pub fn from_str(s: &str) -> (r: JsValue)
        ensures
            r@ == JsValueView::String(s@),
    {
        JsValue::String(s.to_owned())
    }
}

} // verus!
