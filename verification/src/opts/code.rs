//! The conversions that a derivation yields, and what each of them computes.
//!
//! A conversion names, part by part, what the conversion function of a type
//! does. The fields of the value that it is applied to are given by what
//! their own conversions return, in the order of declaration.

use crate::internal::js_object::JsObjectView;
use crate::internal::js_value::{lemma_array_view, JsValue, JsValueView};
use crate::internal::JsObject;
use crate::opts::field::{IndexedFieldOpts, IndexedFieldOptsView};
use crate::to_js::{Converted, ConvertedView};
use crate::util::outcome::lemma_deep_push;
use vstd::prelude::*;

verus! {

/// How the items of an array are put together: nothing for none, a call
/// with one argument for each of up to five, a list for more.
#[derive(Debug, Clone, Copy, PartialEq, Eq, Structural)]
pub enum ArrayBuilder {
    Empty,
    Of(usize),
    FromIter,
}

impl ArrayBuilder {
    /// The builder for `len` items.
    pub open spec fn for_len(len: nat) -> ArrayBuilder {
        if len == 0 {
            ArrayBuilder::Empty
        } else if len <= 5 {
            ArrayBuilder::Of(len as usize)
        } else {
            ArrayBuilder::FromIter
        }
    }

    /// The builder for `len` items.
    pub fn new(len: usize) -> (r: ArrayBuilder)
        ensures
            r == Self::for_len(len as nat),
    {
        if len == 0 {
            ArrayBuilder::Empty
        } else if len <= 5 {
            ArrayBuilder::Of(len)
        } else {
            ArrayBuilder::FromIter
        }
    }
}

/// One property of an object: its name, and the field that it is read from.
#[derive(Debug)]
pub struct PropCode {
    pub prop: String,
    pub field: String,
    pub ty: String,
}

/// The mathematical value of a [`PropCode`].
pub ghost struct PropCodeView {
    pub prop: Seq<char>,
    pub field: Seq<char>,
    pub ty: Seq<char>,
}

impl View for PropCode {
    type V = PropCodeView;

    open spec fn view(&self) -> PropCodeView {
        PropCodeView { prop: self.prop@, field: self.field@, ty: self.ty@ }
    }
}

impl DeepView for PropCode {
    type V = PropCodeView;

    open spec fn deep_view(&self) -> PropCodeView {
        self@
    }
}

/// The conversion of a struct, or of the content of a variant.
#[derive(Debug)]
pub enum StructConversion {
    /// The single field, converted.
    NewType { ty: String },
    /// An array of the fields at the given positions, each converted.
    Tuple { builder: ArrayBuilder, items: Vec<IndexedFieldOpts> },
    /// An object with one property for each field, in this order, that is
    /// set where the field does not leave it unset.
    Object { props: Vec<PropCode> },
}

/// The mathematical value of a [`StructConversion`].
pub ghost enum StructConversionView {
    NewType { ty: Seq<char> },
    Tuple { builder: ArrayBuilder, items: Seq<IndexedFieldOptsView> },
    Object { props: Seq<PropCodeView> },
}

impl View for StructConversion {
    type V = StructConversionView;

    open spec fn view(&self) -> StructConversionView {
        match self {
            StructConversion::NewType { ty } => StructConversionView::NewType { ty: ty@ },
            StructConversion::Tuple { builder, items } => StructConversionView::Tuple {
                builder: *builder,
                items: items.deep_view(),
            },
            StructConversion::Object { props } => StructConversionView::Object {
                props: props.deep_view(),
            },
        }
    }
}

impl DeepView for StructConversion {
    type V = StructConversionView;

    open spec fn deep_view(&self) -> StructConversionView {
        self@
    }
}

/// The object `base` after the first `n` of the properties `props` are
/// set on it in order, each read from the field at the same position and
/// left out where that field leaves it unset.
pub open spec fn object_onto(
    base: JsObjectView,
    props: Seq<PropCodeView>,
    fields: Seq<ConvertedView>,
    n: nat,
) -> JsObjectView
    decreases n,
{
    if n == 0 {
        base
    } else {
        object_onto(base, props, fields, (n - 1) as nat).set_if_present(
            props[n - 1].prop,
            fields[n - 1].property,
        )
    }
}

/// The object that the properties `props` make, read from the fields at the
/// same positions.
pub open spec fn object_of(props: Seq<PropCodeView>, fields: Seq<ConvertedView>) -> JsObjectView {
    object_onto(JsObjectView::empty(), props, fields, props.len())
}

/// Setting properties on an object without a key twice gives such an object.
pub proof fn lemma_object_onto_wf(
    base: JsObjectView,
    props: Seq<PropCodeView>,
    fields: Seq<ConvertedView>,
    n: nat,
)
    requires
        base.wf(),
    ensures
        object_onto(base, props, fields, n).wf(),
    decreases n,
{
    if n > 0 {
        lemma_object_onto_wf(base, props, fields, (n - 1) as nat);
        if fields[n - 1].property is Some {
            object_onto(base, props, fields, (n - 1) as nat).lemma_set(
                props[n - 1].prop,
                fields[n - 1].property->0,
            );
        }
    }
}

/// A key under which none of the first `n` properties is set is in the
/// object what it was in `base`.
pub proof fn lemma_object_onto_untouched(
    base: JsObjectView,
    props: Seq<PropCodeView>,
    fields: Seq<ConvertedView>,
    n: nat,
    key: Seq<char>,
)
    requires
        base.wf(),
        forall|j: int|
            0 <= j < n ==> !((#[trigger] props[j]).prop == key && fields[j].property is Some),
    ensures
        object_onto(base, props, fields, n).get(key) == base.get(key),
    decreases n,
{
    if n > 0 {
        let before = object_onto(base, props, fields, (n - 1) as nat);
        lemma_object_onto_untouched(base, props, fields, (n - 1) as nat, key);
        lemma_object_onto_wf(base, props, fields, (n - 1) as nat);
        assert(!(props[n - 1].prop == key && fields[n - 1].property is Some));
        if fields[n - 1].property is Some {
            before.lemma_set(props[n - 1].prop, fields[n - 1].property->0);
        }
    }
}

/// The property that the field at position `i` sets is in the object with
/// the value of that field, unless a later one of the first `n` properties
/// is set under the same name.
pub proof fn lemma_object_onto_set(
    base: JsObjectView,
    props: Seq<PropCodeView>,
    fields: Seq<ConvertedView>,
    n: nat,
    i: int,
)
    requires
        base.wf(),
        0 <= i < n,
        fields[i].property is Some,
        forall|j: int|
            i < j < n ==> !((#[trigger] props[j]).prop == props[i].prop
                && fields[j].property is Some),
    ensures
        object_onto(base, props, fields, n).get(props[i].prop) == fields[i].property,
    decreases n,
{
    let before = object_onto(base, props, fields, (n - 1) as nat);
    lemma_object_onto_wf(base, props, fields, (n - 1) as nat);
    if i == n - 1 {
        before.lemma_set(props[i].prop, fields[i].property->0);
    } else {
        lemma_object_onto_set(base, props, fields, (n - 1) as nat, i);
        assert(!(props[n - 1].prop == props[i].prop && fields[n - 1].property is Some));
        if fields[n - 1].property is Some {
            before.lemma_set(props[n - 1].prop, fields[n - 1].property->0);
        }
    }
}

/// Sets the properties `props` on `object`, each read from the field at the
/// same position.
fn fill(object: JsObject, props: &Vec<PropCode>, fields: &Vec<Converted>) -> (r: JsObject)
    requires
        props.len() == fields.len(),
    ensures
        r@ == object_onto(object@, props.deep_view(), fields.deep_view(), props@.len()),
{
    let ghost base = object@;
    let mut object = object;
    let mut i: usize = 0;
    while i < props.len()
        invariant
            i <= props.len(),
            props.len() == fields.len(),
            object@ == object_onto(base, props.deep_view(), fields.deep_view(), i as nat),
        decreases props.len() - i,
    {
        assert(props.deep_view()[i as int].prop == props[i as int].prop@);
        assert(fields.deep_view()[i as int].property == fields[i as int].property.deep_view());
        match &fields[i].property {
            Some(value) => {
                object = object.with(props[i].prop.as_str(), value.clone());
            },
            None => {},
        }
        i += 1;
    }
    object
}

impl StructConversionView {
    /// Whether a value with `len` fields can be converted: a new type has
    /// one field, a tuple has a field at each position that it reads, and an
    /// object has a field for each property.
    pub open spec fn fits(self, len: nat) -> bool {
        match self {
            StructConversionView::NewType { .. } => len == 1,
            StructConversionView::Tuple { items, .. } => forall|i: int|
                0 <= i < items.len() ==> 0 <= (#[trigger] items[i]).index < len,
            StructConversionView::Object { props } => props.len() == len,
        }
    }

    /// What the value with the fields `fields` converts to.
    pub open spec fn convert(self, fields: Seq<ConvertedView>) -> JsValueView {
        match self {
            StructConversionView::NewType { .. } => fields[0].value,
            StructConversionView::Tuple { items, .. } => JsValueView::Array(
                Seq::new(items.len(), |i: int| fields[items[i].index].value),
            ),
            StructConversionView::Object { props } => JsValueView::Object(
                object_of(props, fields).props,
            ),
        }
    }
}

impl StructConversion {
    /// Converts the value with the fields `fields`; `None` where the fields
    /// are not those of a value of this shape.
    #[verifier::loop_isolation(false)]
    pub fn convert(&self, fields: &Vec<Converted>) -> (r: Option<JsValue>)
        ensures
            r is Some <==> self@.fits(fields@.len()),
            r matches Some(value) ==> value@ == self@.convert(fields.deep_view()),
    {
        match self {
            StructConversion::NewType { .. } => {
                if fields.len() == 1 {
                    Some(fields[0].value.clone())
                } else {
                    None
                }
            },
            StructConversion::Tuple { items, .. } => {
                let mut values: Vec<JsValue> = Vec::new();
                let mut i: usize = 0;
                while i < items.len()
                    invariant
                        i <= items.len(),
                        forall|j: int|
                            0 <= j < i ==> 0 <= (#[trigger] items.deep_view()[j]).index
                                < fields@.len(),
                        values.deep_view() == Seq::new(
                            i as nat,
                            |j: int| fields.deep_view()[items.deep_view()[j].index].value,
                        ),
                    decreases items.len() - i,
                {
                    let index = items[i].index;
                    assert(items.deep_view()[i as int].index == index);
                    if index >= fields.len() {
                        return None;
                    }
                    let value = fields[index].value.clone();
                    proof {
                        lemma_deep_push(values@, value);
                        assert(Seq::new(
                            i as nat,
                            |j: int| fields.deep_view()[items.deep_view()[j].index].value,
                        ).push(value@) =~= Seq::new(
                            (i + 1) as nat,
                            |j: int| fields.deep_view()[items.deep_view()[j].index].value,
                        ));
                    }
                    values.push(value);
                    i += 1;
                }
                proof {
                    lemma_array_view(values);
                }
                Some(JsValue::Array(values))
            },
            StructConversion::Object { props } => {
                if props.len() != fields.len() {
                    return None;
                }
                let object = fill(JsObject::new(), props, fields);
                Some(object.into_js_value())
            },
        }
    }
}

/// The conversion of one variant of an enum.
#[derive(Debug)]
pub enum VariantConversion {
    /// The tag, as a string.
    Tag { tag: String },
    /// `undefined`.
    Undefined,
    /// The content, converted, with nothing around it.
    Content(StructConversion),
    /// An object with the converted content under the tag; a variant
    /// without content has `undefined` there.
    External { tag: String, content: Option<StructConversion> },
    /// An object with the tag under `tag_prop`, followed by the properties
    /// of the content.
    Internal { tag_prop: String, tag: String, props: Vec<PropCode> },
    /// An object with the tag under `tag_prop` and the converted content
    /// under `content_prop`; a variant without content has the tag alone.
    Adjacent { tag_prop: String, tag: String, content_prop: String, content: Option<StructConversion> },
}

/// The mathematical value of a [`VariantConversion`].
pub ghost enum VariantConversionView {
    Tag { tag: Seq<char> },
    Undefined,
    Content(StructConversionView),
    External { tag: Seq<char>, content: Option<StructConversionView> },
    Internal { tag_prop: Seq<char>, tag: Seq<char>, props: Seq<PropCodeView> },
    Adjacent {
        tag_prop: Seq<char>,
        tag: Seq<char>,
        content_prop: Seq<char>,
        content: Option<StructConversionView>,
    },
}

impl View for VariantConversion {
    type V = VariantConversionView;

    open spec fn view(&self) -> VariantConversionView {
        match self {
            VariantConversion::Tag { tag } => VariantConversionView::Tag { tag: tag@ },
            VariantConversion::Undefined => VariantConversionView::Undefined,
            VariantConversion::Content(content) => VariantConversionView::Content(content@),
            VariantConversion::External { tag, content } => VariantConversionView::External {
                tag: tag@,
                content: content.deep_view(),
            },
            VariantConversion::Internal { tag_prop, tag, props } => VariantConversionView::Internal {
                tag_prop: tag_prop@,
                tag: tag@,
                props: props.deep_view(),
            },
            VariantConversion::Adjacent {
                tag_prop,
                tag,
                content_prop,
                content,
            } => VariantConversionView::Adjacent {
                tag_prop: tag_prop@,
                tag: tag@,
                content_prop: content_prop@,
                content: content.deep_view(),
            },
        }
    }
}

impl DeepView for VariantConversion {
    type V = VariantConversionView;

    open spec fn deep_view(&self) -> VariantConversionView {
        self@
    }
}

/// Whether a value with `len` fields can be converted as a content that may
/// be missing: without content the value has no fields.
pub open spec fn content_fits(content: Option<StructConversionView>, len: nat) -> bool {
    match content {
        Some(content) => content.fits(len),
        None => len == 0,
    }
}

/// What a content that may be missing converts to: `undefined` without one.
pub open spec fn content_value(content: Option<StructConversionView>, fields: Seq<ConvertedView>)
    -> JsValueView {
    match content {
        Some(content) => content.convert(fields),
        None => JsValueView::Undefined,
    }
}

impl VariantConversionView {
    /// Whether a variant with `len` fields can be converted.
    pub open spec fn fits(self, len: nat) -> bool {
        match self {
            VariantConversionView::Tag { .. } => len == 0,
            VariantConversionView::Undefined => len == 0,
            VariantConversionView::Content(content) => content.fits(len),
            VariantConversionView::External { content, .. } => content_fits(content, len),
            VariantConversionView::Internal { props, .. } => props.len() == len,
            VariantConversionView::Adjacent { content, .. } => content_fits(content, len),
        }
    }

    /// What the variant with the fields `fields` converts to.
    pub open spec fn convert(self, fields: Seq<ConvertedView>) -> JsValueView {
        match self {
            VariantConversionView::Tag { tag } => JsValueView::String(tag),
            VariantConversionView::Undefined => JsValueView::Undefined,
            VariantConversionView::Content(content) => content.convert(fields),
            VariantConversionView::External { tag, content } => JsValueView::Object(
                JsObjectView::empty().set(tag, content_value(content, fields)).props,
            ),
            VariantConversionView::Internal { tag_prop, tag, props } => JsValueView::Object(
                object_onto(
                    JsObjectView::empty().set(tag_prop, JsValueView::String(tag)),
                    props,
                    fields,
                    props.len(),
                ).props,
            ),
            VariantConversionView::Adjacent {
                tag_prop,
                tag,
                content_prop,
                content,
            } => {
                let tagged = JsObjectView::empty().set(tag_prop, JsValueView::String(tag));
                match content {
                    Some(content) => JsValueView::Object(
                        tagged.set(content_prop, content.convert(fields)).props,
                    ),
                    None => JsValueView::Object(tagged.props),
                }
            },
        }
    }
}

/// Converts a content that may be missing.
fn convert_content(content: &Option<StructConversion>, fields: &Vec<Converted>) -> (r: Option<
    JsValue,
>)
    ensures
        r is Some <==> content_fits(content.deep_view(), fields@.len()),
        r matches Some(value) ==> value@ == content_value(
            content.deep_view(),
            fields.deep_view(),
        ),
{
    match content {
        Some(content) => content.convert(fields),
        None => {
            if fields.len() == 0 {
                Some(JsValue::Undefined)
            } else {
                None
            }
        },
    }
}

impl VariantConversion {
    /// Converts the variant with the fields `fields`; `None` where the
    /// fields are not those of this variant.
    pub fn convert(&self, fields: &Vec<Converted>) -> (r: Option<JsValue>)
        ensures
            r is Some <==> self@.fits(fields@.len()),
            r matches Some(value) ==> value@ == self@.convert(fields.deep_view()),
    {
        match self {
            VariantConversion::Tag { tag } => {
                if fields.len() == 0 {
                    Some(JsValue::from_str(tag.as_str()))
                } else {
                    None
                }
            },
            VariantConversion::Undefined => {
                if fields.len() == 0 {
                    Some(JsValue::Undefined)
                } else {
                    None
                }
            },
            VariantConversion::Content(content) => content.convert(fields),
            VariantConversion::External { tag, content } => {
                match convert_content(content, fields) {
                    Some(value) => Some(
                        JsObject::new().with(tag.as_str(), value).into_js_value(),
                    ),
                    None => None,
                }
            },
            VariantConversion::Internal { tag_prop, tag, props } => {
                if props.len() != fields.len() {
                    return None;
                }
                let tagged = JsObject::new().with(
                    tag_prop.as_str(),
                    JsValue::from_str(tag.as_str()),
                );
                Some(fill(tagged, props, fields).into_js_value())
            },
            VariantConversion::Adjacent { tag_prop, tag, content_prop, content } => {
                let tagged = JsObject::new().with(
                    tag_prop.as_str(),
                    JsValue::from_str(tag.as_str()),
                );
                match content {
                    Some(content) => match content.convert(fields) {
                        Some(value) => Some(
                            tagged.with(content_prop.as_str(), value).into_js_value(),
                        ),
                        None => None,
                    },
                    None => {
                        if fields.len() == 0 {
                            Some(tagged.into_js_value())
                        } else {
                            None
                        }
                    },
                }
            },
        }
    }
}

/// A field that an arm binds by its name.
#[derive(Debug)]
pub struct FieldBinding {
    pub ident: String,
    pub ty: String,
}

/// The mathematical value of a [`FieldBinding`].
pub ghost struct FieldBindingView {
    pub ident: Seq<char>,
    pub ty: Seq<char>,
}

impl View for FieldBinding {
    type V = FieldBindingView;

    open spec fn view(&self) -> FieldBindingView {
        FieldBindingView { ident: self.ident@, ty: self.ty@ }
    }
}

impl DeepView for FieldBinding {
    type V = FieldBindingView;

    open spec fn deep_view(&self) -> FieldBindingView {
        self@
    }
}

/// How an arm takes a variant apart, so that its content can be read as
/// one value.
#[derive(Debug)]
pub enum ArmPattern {
    /// Nothing is bound.
    Unit,
    /// The field is bound to the name of the value, which is then made the
    /// tuple of that one field.
    NewType,
    /// Each field is bound to a name of its own, and the value is the tuple
    /// of them.
    Tuple { bindings: Vec<String> },
    /// Each field is bound by its name, and the value is a struct, declared
    /// on the spot under `struct_ident`, of references to them.
    Object { struct_ident: String, fields: Vec<FieldBinding> },
}

/// The mathematical value of an [`ArmPattern`].
pub ghost enum ArmPatternView {
    Unit,
    NewType,
    Tuple { bindings: Seq<Seq<char>> },
    Object { struct_ident: Seq<char>, fields: Seq<FieldBindingView> },
}

impl View for ArmPattern {
    type V = ArmPatternView;

    open spec fn view(&self) -> ArmPatternView {
        match self {
            ArmPattern::Unit => ArmPatternView::Unit,
            ArmPattern::NewType => ArmPatternView::NewType,
            ArmPattern::Tuple { bindings } => ArmPatternView::Tuple {
                bindings: bindings.deep_view(),
            },
            ArmPattern::Object { struct_ident, fields } => ArmPatternView::Object {
                struct_ident: struct_ident@,
                fields: fields.deep_view(),
            },
        }
    }
}

impl DeepView for ArmPattern {
    type V = ArmPatternView;

    open spec fn deep_view(&self) -> ArmPatternView {
        self@
    }
}

/// One arm of the conversion of an enum: the variant that it is for, the
/// name under which the content is read, how the variant is taken apart,
/// and the conversion.
#[derive(Debug)]
pub struct ArmCode {
    pub variant: String,
    pub value_ident: String,
    pub pattern: ArmPattern,
    pub body: VariantConversion,
}

/// The mathematical value of an [`ArmCode`].
pub ghost struct ArmCodeView {
    pub variant: Seq<char>,
    pub value_ident: Seq<char>,
    pub pattern: ArmPatternView,
    pub body: VariantConversionView,
}

impl View for ArmCode {
    type V = ArmCodeView;

    open spec fn view(&self) -> ArmCodeView {
        ArmCodeView {
            variant: self.variant@,
            value_ident: self.value_ident@,
            pattern: self.pattern@,
            body: self.body@,
        }
    }
}

impl DeepView for ArmCode {
    type V = ArmCodeView;

    open spec fn deep_view(&self) -> ArmCodeView {
        self@
    }
}

/// The conversion of an enum: one arm for each variant, in the order of
/// declaration.
#[derive(Debug)]
pub struct EnumCode {
    pub arms: Vec<ArmCode>,
}

/// The mathematical value of an [`EnumCode`].
pub ghost struct EnumCodeView {
    pub arms: Seq<ArmCodeView>,
}

impl View for EnumCode {
    type V = EnumCodeView;

    open spec fn view(&self) -> EnumCodeView {
        EnumCodeView { arms: self.arms.deep_view() }
    }
}

impl DeepView for EnumCode {
    type V = EnumCodeView;

    open spec fn deep_view(&self) -> EnumCodeView {
        self@
    }
}

impl EnumCodeView {
    /// Whether the variant at position `variant` exists, and can be
    /// converted with `len` fields.
    pub open spec fn fits(self, variant: int, len: nat) -> bool {
        0 <= variant < self.arms.len() && self.arms[variant].body.fits(len)
    }

    /// What the value of the variant at position `variant`, with the fields
    /// `fields`, converts to.
    pub open spec fn convert(self, variant: int, fields: Seq<ConvertedView>) -> JsValueView {
        self.arms[variant].body.convert(fields)
    }
}

impl EnumCode {
    /// Converts the value of the variant at position `variant` with the
    /// fields `fields`; `None` where there is no such variant, or the fields
    /// are not its own.
    pub fn convert(&self, variant: usize, fields: &Vec<Converted>) -> (r: Option<JsValue>)
        ensures
            r is Some <==> self@.fits(variant as int, fields@.len()),
            r matches Some(value) ==> value@ == self@.convert(variant as int, fields.deep_view()),
    {
        if variant < self.arms.len() {
            assert(self@.arms[variant as int] == self.arms[variant as int]@);
            self.arms[variant].body.convert(fields)
        } else {
            None
        }
    }
}

} // verus!
