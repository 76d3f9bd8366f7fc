//! Objects under construction.

use crate::internal::js_value::{lemma_object_view, JsValue, JsValueView};
use crate::to_js::ToJs;
use crate::util::outcome::{deep, lemma_deep_push};
use vstd::prelude::*;

verus! {

/// The mathematical value of an object: its properties, each a key and a
/// value, in the order in which they were first set.
pub ghost struct JsObjectView {
    pub props: Seq<(Seq<char>, JsValueView)>,
}

impl JsObjectView {
    /// The object without properties.
    pub open spec fn empty() -> Self {
        JsObjectView { props: Seq::empty() }
    }

    /// No key occurs twice.
    pub open spec fn wf(self) -> bool {
        forall|i: int, j: int|
            0 <= i < j < self.props.len() ==> (#[trigger] self.props[i]).0 != (
            #[trigger] self.props[j]).0
    }

    /// The first position at which `key` stands.
    pub open spec fn index_of(self, key: Seq<char>) -> Option<int>
        decreases self.props.len(),
    {
        if self.props.len() == 0 {
            None
        } else if self.props[0].0 == key {
            Some(0)
        } else {
            match (JsObjectView { props: self.props.drop_first() }).index_of(key) {
                Some(i) => Some(i + 1),
                None => None,
            }
        }
    }

    /// Whether the object has a property `key`.
    pub open spec fn has(self, key: Seq<char>) -> bool {
        self.index_of(key) is Some
    }

    /// The value of the property `key`, if the object has it.
    pub open spec fn get(self, key: Seq<char>) -> Option<JsValueView> {
        match self.index_of(key) {
            Some(i) => Some(self.props[i].1),
            None => None,
        }
    }

    /// The object with the property `key` set to `value`: in the place where
    /// the key stands already, else at the end.
    pub open spec fn set(self, key: Seq<char>, value: JsValueView) -> Self {
        match self.index_of(key) {
            Some(i) => JsObjectView { props: self.props.update(i, (key, value)) },
            None => JsObjectView { props: self.props.push((key, value)) },
        }
    }

    /// The object with the property `key` set where a value is given, and
    /// unchanged where none is.
    pub open spec fn set_if_present(self, key: Seq<char>, value: Option<JsValueView>) -> Self {
        match value {
            Some(value) => self.set(key, value),
            None => self,
        }
    }

    /// What [`index_of`](Self::index_of) finds: the key stands there and
    /// nowhere before; it finds nothing only where the key stands nowhere.
    pub proof fn lemma_index_of(self, key: Seq<char>)
        ensures
            match self.index_of(key) {
                Some(i) => 0 <= i < self.props.len() && self.props[i].0 == key && forall|j: int|
                    0 <= j < i ==> (#[trigger] self.props[j]).0 != key,
                None => forall|j: int|
                    0 <= j < self.props.len() ==> (#[trigger] self.props[j]).0 != key,
            },
        decreases self.props.len(),
    {
        if self.props.len() > 0 && self.props[0].0 != key {
            let rest = JsObjectView { props: self.props.drop_first() };
            rest.lemma_index_of(key);
            match rest.index_of(key) {
                Some(i) => {
                    assert forall|j: int| 0 <= j < i + 1 implies (#[trigger] self.props[j]).0
                        != key by {
                        if j > 0 {
                            assert(rest.props[j - 1] == self.props[j]);
                        }
                    }
                },
                None => {
                    assert forall|j: int| 0 <= j < self.props.len() implies (
                    #[trigger] self.props[j]).0 != key by {
                        if j > 0 {
                            assert(rest.props[j - 1] == self.props[j]);
                        }
                    }
                },
            }
        }
    }

    /// Where the key stands at `i` and nowhere before, `index_of` finds `i`.
    pub proof fn lemma_index_of_at(self, key: Seq<char>, i: int)
        requires
            0 <= i < self.props.len(),
            self.props[i].0 == key,
            forall|j: int| 0 <= j < i ==> (#[trigger] self.props[j]).0 != key,
        ensures
            self.index_of(key) == Some(i),
    {
        self.lemma_index_of(key);
    }

    /// Setting a property keeps the keys distinct, makes the property
    /// readable, and leaves every other property as it was.
    pub proof fn lemma_set(self, key: Seq<char>, value: JsValueView)
        requires
            self.wf(),
        ensures
            self.set(key, value).wf(),
            self.set(key, value).get(key) == Some(value),
            forall|other: Seq<char>|
                other != key ==> #[trigger] self.set(key, value).get(other) == self.get(other),
    {
        let after = self.set(key, value);
        self.lemma_index_of(key);
        match self.index_of(key) {
            Some(i) => {
                after.lemma_index_of_at(key, i);
            },
            None => {
                after.lemma_index_of_at(key, self.props.len() as int);
            },
        }
        assert forall|other: Seq<char>| other != key implies #[trigger] after.get(other)
            == self.get(other) by {
            self.lemma_index_of(other);
            match self.index_of(other) {
                Some(k) => {
                    after.lemma_index_of_at(other, k);
                },
                None => {
                    after.lemma_index_of(other);
                },
            }
        }
    }
}

/// An object under construction. No key occurs twice in it.
#[derive(Debug)]
pub struct JsObject {
    props: Vec<(String, JsValue)>,
}

impl View for JsObject {
    type V = JsObjectView;

    closed spec fn view(&self) -> JsObjectView {
        JsObjectView { props: self.props.deep_view() }
    }
}

impl JsObject {
    #[verifier::type_invariant]
    spec fn no_key_twice(&self) -> bool {
        self@.wf()
    }

    /// An object without properties.
    pub fn new() -> (r: Self)
        ensures
            r@ == JsObjectView::empty(),
    {
        let r = JsObject { props: Vec::new() };
        assert(r@.props =~= Seq::empty());
        r
    }

    /// The properties, in the order in which they were first set.
    pub fn into_inner(self) -> (r: Vec<(String, JsValue)>)
        ensures
            r.deep_view() == self@.props,
            self@.wf(),
    {
        proof {
            use_type_invariant(&self);
        }
        self.props
    }

    /// The object as a dynamic value.
    pub fn into_js_value(self) -> (r: JsValue)
        ensures
            r@ == JsValueView::Object(self@.props),
            self@.wf(),
    {
        proof {
            use_type_invariant(&self);
            lemma_object_view(self.props);
        }
        JsValue::Object(self.props)
    }

    /// The object with the property `key` set to what `v` is as the value of
    /// a property, or unchanged where `v` leaves the property unset.
    pub fn with_prop<V: ToJs>(self, key: &str, v: &V) -> (r: Self)
        ensures
            r@ == self@.set_if_present(key@, v.property()),
            r@.wf(),
    {
        proof {
            use_type_invariant(&self);
        }
        match v.to_js_property_value() {
            Some(value) => self.with(key, value),
            None => self,
        }
    }

    /// Sets the property `key` to what `v` is as the value of a property;
    /// does nothing where `v` leaves the property unset.
    pub fn set_prop<V: ToJs>(&mut self, key: &str, v: &V)
        ensures
            final(self)@ == old(self)@.set_if_present(key@, v.property()),
            final(self)@.wf(),
    {
        let mut object = JsObject::new();
        std::mem::swap(self, &mut object);
        *self = object.with_prop(key, v);
    }

    /// The object with the property `key` set to `value`.
    #[verifier::loop_isolation(false)]
    pub fn with(self, key: &str, value: JsValue) -> (r: Self)
        ensures
            r@ == self@.set(key@, value@),
            r@.wf(),
    {
        proof {
            use_type_invariant(&self);
            self@.lemma_set(key@, value@);
        }
        let ghost before = self@;
        let key = key.to_owned();
        let mut props = self.props;
        let mut i: usize = 0;
        while i < props.len()
            invariant
                i <= props.len(),
                before.props == deep(props@),
                forall|j: int| 0 <= j < i ==> (#[trigger] before.props[j]).0 != key@,
            decreases props.len() - i,
        {
            if props[i].0 == key {
                proof {
                    before.lemma_index_of_at(key@, i as int);
                    assert(deep(props@).update(i as int, (key@, value@)) =~= deep(
                        props@.update(i as int, (key, value)),
                    ));
                }
                props[i] = (key, value);
                return JsObject { props };
            }
            i += 1;
        }
        proof {
            before.lemma_index_of(key@);
            lemma_deep_push(props@, (key, value));
        }
        props.push((key, value));
        JsObject { props }
    }
}

} // verus!
