//! The conversion of a struct.

use crate::internal::js_object::JsObjectView;
use crate::internal::js_value::JsValueView;
use crate::opts::ast::FieldsView;
use crate::opts::code::{
    lemma_object_onto_set, lemma_object_onto_untouched, lemma_object_onto_wf, object_of,
    ArrayBuilder, PropCode, PropCodeView, StructConversion, StructConversionView,
};
use crate::opts::field::{
    struct_shape, IndexedFieldOpts, IndexedFieldOptsView, NamedFieldOpts, NamedFieldOptsView,
    NewTypeFieldOptsView,
};
use crate::opts::opts::{ConvertJsOptsStructData, ConvertJsOptsStructDataView};
use crate::rename::RenameRule;
use crate::to_js::ConvertedView;
use crate::util::diagnostic::{Diagnostic, DiagnosticView};
use crate::util::outcome::{deep, lemma_deep_push};
use vstd::prelude::*;

verus! {

/// What is needed to write the conversion of a struct, or of the content of
/// a variant.
#[derive(Debug)]
pub struct ImplStruct<'a> {
    /// The name of the struct or of the variant.
    pub ident: &'a str,
    pub data: &'a ConvertJsOptsStructData,
    /// The name of the value that is converted; `self` by default.
    pub value_ident: Option<&'a str>,
}

/// The conversion of a struct, with the name of the value that it reads.
#[derive(Debug)]
pub struct StructCode {
    pub value_ident: String,
    pub conversion: StructConversion,
}

/// The mathematical value of a [`StructCode`].
pub ghost struct StructCodeView {
    pub value_ident: Seq<char>,
    pub conversion: StructConversionView,
}

impl View for StructCode {
    type V = StructCodeView;

    open spec fn view(&self) -> StructCodeView {
        StructCodeView { value_ident: self.value_ident@, conversion: self.conversion@ }
    }
}

impl DeepView for StructCode {
    type V = StructCodeView;

    open spec fn deep_view(&self) -> StructCodeView {
        self@
    }
}

/// The property that a named field becomes under the rule `rename_all`.
pub open spec fn prop_of(field: NamedFieldOptsView, rename_all: Option<RenameRule>)
    -> PropCodeView {
    PropCodeView { prop: field.property_name(rename_all), field: field.ident, ty: field.ty }
}

impl ConvertJsOptsStructDataView {
    /// The conversion of a value of this shape. The unit shape has none.
    ///
    /// - A new type converts as its field, with nothing around it.
    /// - A tuple converts as the array of its fields in the order of
    ///   declaration; without fields, as the empty array.
    /// - An object converts as an object that has, for each field in the
    ///   order of declaration, a property under the resolved name of the
    ///   field, unless the field leaves it unset.
    pub open spec fn conversion(self) -> Option<StructConversionView> {
        match self {
            ConvertJsOptsStructDataView::Unit => None,
            ConvertJsOptsStructDataView::NewType(field) => Some(
                StructConversionView::NewType { ty: field.ty },
            ),
            ConvertJsOptsStructDataView::Tuple(fields) => Some(
                StructConversionView::Tuple {
                    builder: ArrayBuilder::for_len(fields.len()),
                    items: fields,
                },
            ),
            ConvertJsOptsStructDataView::Object { fields, rename_all } => Some(
                StructConversionView::Object {
                    props: Seq::new(fields.len(), |i: int| prop_of(fields[i], rename_all)),
                },
            ),
        }
    }
}

/// The error for a unit struct called `ident`.
pub open spec fn unit_struct_error(ident: Seq<char>) -> DiagnosticView {
    DiagnosticView { at: ident, message: "macro ToJs doesn't support unit struct currently"@ }
}

fn clone_items(fields: &Vec<IndexedFieldOpts>) -> (r: Vec<IndexedFieldOpts>)
    ensures
        r.deep_view() == fields.deep_view(),
{
    let mut items: Vec<IndexedFieldOpts> = Vec::new();
    let mut i: usize = 0;
    while i < fields.len()
        invariant
            i <= fields.len(),
            deep(items@) == deep(fields@).take(i as int),
        decreases fields.len() - i,
    {
        let item = fields[i].clone();
        proof {
            lemma_deep_push(items@, item);
            assert(deep(fields@).take(i as int).push(item@) =~= deep(fields@).take(i + 1));
        }
        items.push(item);
        i += 1;
    }
    proof {
        assert(deep(fields@).take(fields.len() as int) =~= deep(fields@));
    }
    items
}

fn props_of(fields: &Vec<NamedFieldOpts>, rename_all: Option<&RenameRule>) -> (r: Vec<PropCode>)
    ensures
        r.deep_view() == Seq::new(
            fields@.len(),
            |i: int|
                prop_of(
                    fields.deep_view()[i],
                    match rename_all {
                        Some(rule) => Some(*rule),
                        None => None,
                    },
                ),
        ),
{
    let ghost rule = match rename_all {
        Some(rule) => Some(*rule),
        None => None,
    };
    let mut props: Vec<PropCode> = Vec::new();
    let mut i: usize = 0;
    while i < fields.len()
        invariant
            i <= fields.len(),
            rule == match rename_all {
                Some(rule) => Some(*rule),
                None => None,
            },
            deep(props@) == Seq::new(i as nat, |j: int| prop_of(fields.deep_view()[j], rule)),
        decreases fields.len() - i,
    {
        let field = &fields[i];
        let prop = PropCode {
            prop: field.as_property_name(rename_all),
            field: field.ident.clone(),
            ty: field.ty.clone(),
        };
        proof {
            assert(fields.deep_view()[i as int] == field@);
            lemma_deep_push(props@, prop);
            assert(Seq::new(i as nat, |j: int| prop_of(fields.deep_view()[j], rule)).push(prop@)
                =~= Seq::new((i + 1) as nat, |j: int| prop_of(fields.deep_view()[j], rule)));
        }
        props.push(prop);
        i += 1;
    }
    props
}

impl<'a> ImplStruct<'a> {
    /// The name of the value that is converted.
    pub open spec fn value(&self) -> Seq<char> {
        match self.value_ident {
            Some(value_ident) => value_ident@,
            None => "self"@,
        }
    }

    /// Writes the conversion: that of the shape, reading the value by its
    /// name. A unit struct has no conversion, which is the one error.
    pub fn impl_to_js(&self) -> (r: Result<StructCode, Vec<Diagnostic>>)
        ensures
            match r {
                Ok(code) => self.data@.conversion() == Some(code@.conversion)
                    && code@.value_ident == self.value(),
                Err(errors) => self.data@.conversion() is None && errors.deep_view()
                    == seq![unit_struct_error(self.ident@)],
            },
    {
        let value_ident = if let Some(value_ident) = self.value_ident {
            value_ident.to_owned()
        } else {
            "self".to_owned()
        };

        let conversion = match self.data {
            ConvertJsOptsStructData::Unit => {
                let error = Diagnostic::new(
                    self.ident,
                    "macro ToJs doesn't support unit struct currently",
                );
                let mut errors: Vec<Diagnostic> = Vec::new();
                proof {
                    lemma_deep_push(errors@, error);
                    assert(deep(errors@).push(error@) =~= seq![unit_struct_error(self.ident@)]);
                }
                errors.push(error);
                return Err(errors);
            },
            ConvertJsOptsStructData::NewType(field) => StructConversion::NewType {
                ty: field.ty.clone(),
            },
            ConvertJsOptsStructData::Tuple(fields) => StructConversion::Tuple {
                builder: ArrayBuilder::new(fields.len()),
                items: clone_items(fields),
            },
            ConvertJsOptsStructData::Object { fields, rename_all } => {
                let props = props_of(fields, rename_all.as_ref());
                assert(props.deep_view() =~= self.data@.conversion()->0->props);
                StructConversion::Object { props }
            },
        };

        Ok(StructCode { value_ident, conversion })
    }
}

/// A new type converts as its field does, with nothing around it.
pub proof fn lemma_new_type_is_transparent(field: NewTypeFieldOptsView, value: ConvertedView)
    ensures
        ConvertJsOptsStructDataView::NewType(field).conversion() is Some,
        ConvertJsOptsStructDataView::NewType(field).conversion()->0.fits(1),
        ConvertJsOptsStructDataView::NewType(field).conversion()->0.convert(seq![value])
            == value.value,
{
}

/// A tuple converts as the array of its converted fields: as many items as
/// there are fields, in the order of declaration, whatever the fields are;
/// without fields, the empty array.
pub proof fn lemma_tuple_is_array(fields: Seq<IndexedFieldOptsView>, values: Seq<ConvertedView>)
    requires
        ConvertJsOptsStructDataView::Tuple(fields).wf(),
        values.len() == fields.len(),
    ensures
        ConvertJsOptsStructDataView::Tuple(fields).conversion() is Some,
        ConvertJsOptsStructDataView::Tuple(fields).conversion()->0.fits(values.len()),
        ConvertJsOptsStructDataView::Tuple(fields).conversion()->0.convert(values)
            == JsValueView::Array(Seq::new(values.len(), |i: int| values[i].value)),
        fields.len() == 0 ==> ConvertJsOptsStructDataView::Tuple(fields).conversion()->0.convert(
            values,
        ) == JsValueView::Array(Seq::empty()),
{
    let conversion = ConvertJsOptsStructDataView::Tuple(fields).conversion()->0;
    assert(conversion.convert(values)->Array_0 =~= Seq::new(
        values.len(),
        |i: int| values[i].value,
    ));
    if fields.len() == 0 {
        assert(conversion.convert(values)->Array_0 =~= Seq::empty());
    }
}

/// The fields of a declaration that is classified as a tuple are converted
/// in the order of declaration.
pub proof fn lemma_declared_tuple_is_array(
    fields: FieldsView,
    new_type_as_tuple: bool,
    rename_all: Option<RenameRule>,
    values: Seq<ConvertedView>,
)
    requires
        struct_shape(fields, new_type_as_tuple, rename_all) matches Ok(
            ConvertJsOptsStructDataView::Tuple(_),
        ),
        values.len() == fields.fields.len(),
    ensures
        struct_shape(fields, new_type_as_tuple, rename_all)->Ok_0.conversion()->0.convert(values)
            == JsValueView::Array(Seq::new(values.len(), |i: int| values[i].value)),
{
    let items = struct_shape(fields, new_type_as_tuple, rename_all)->Ok_0->Tuple_0;
    lemma_tuple_is_array(items, values);
}

/// The object that a shape with named fields converts to.
pub open spec fn converted_object(
    fields: Seq<NamedFieldOptsView>,
    rename_all: Option<RenameRule>,
    values: Seq<ConvertedView>,
) -> JsObjectView {
    object_of(Seq::new(fields.len(), |i: int| prop_of(fields[i], rename_all)), values)
}

/// An object shape converts to an object, in which no key stands twice.
pub proof fn lemma_object_is_object(
    fields: Seq<NamedFieldOptsView>,
    rename_all: Option<RenameRule>,
    values: Seq<ConvertedView>,
)
    requires
        values.len() == fields.len(),
    ensures
        (ConvertJsOptsStructDataView::Object { fields, rename_all }).conversion() is Some,
        (ConvertJsOptsStructDataView::Object { fields, rename_all }).conversion()->0.fits(
            values.len(),
        ),
        (ConvertJsOptsStructDataView::Object { fields, rename_all }).conversion()->0.convert(values)
            == JsValueView::Object(converted_object(fields, rename_all, values).props),
        converted_object(fields, rename_all, values).wf(),
{
    let props = Seq::new(fields.len(), |i: int| prop_of(fields[i], rename_all));
    lemma_object_onto_wf(JsObjectView::empty(), props, values, props.len());
}

/// A field that does not leave its property unset has it in the object,
/// under its resolved name and with the value that the field gives, unless
/// a later field sets a property of the same name.
pub proof fn lemma_present_field_is_set(
    fields: Seq<NamedFieldOptsView>,
    rename_all: Option<RenameRule>,
    values: Seq<ConvertedView>,
    i: int,
)
    requires
        values.len() == fields.len(),
        0 <= i < fields.len(),
        values[i].property is Some,
        forall|j: int|
            i < j < fields.len() ==> !((#[trigger] fields[j]).property_name(rename_all)
                == fields[i].property_name(rename_all) && values[j].property is Some),
    ensures
        converted_object(fields, rename_all, values).get(fields[i].property_name(rename_all))
            == values[i].property,
{
    let props = Seq::new(fields.len(), |i: int| prop_of(fields[i], rename_all));
    assert forall|j: int| i < j < props.len() implies !((#[trigger] props[j]).prop == props[i].prop
        && values[j].property is Some) by {
        assert(props[j].prop == fields[j].property_name(rename_all));
    }
    lemma_object_onto_set(JsObjectView::empty(), props, values, props.len(), i);
}

/// A field that leaves its property unset has no property in the object:
/// the key is missing, unless another field sets a property of that name.
pub proof fn lemma_absent_field_is_unset(
    fields: Seq<NamedFieldOptsView>,
    rename_all: Option<RenameRule>,
    values: Seq<ConvertedView>,
    i: int,
)
    requires
        values.len() == fields.len(),
        0 <= i < fields.len(),
        values[i].property is None,
        forall|j: int|
            0 <= j < fields.len() ==> !((#[trigger] fields[j]).property_name(rename_all)
                == fields[i].property_name(rename_all) && values[j].property is Some),
    ensures
        !converted_object(fields, rename_all, values).has(fields[i].property_name(rename_all)),
{
    let props = Seq::new(fields.len(), |i: int| prop_of(fields[i], rename_all));
    let key = fields[i].property_name(rename_all);
    assert forall|j: int| 0 <= j < props.len() implies !((#[trigger] props[j]).prop == key
        && values[j].property is Some) by {
        assert(props[j].prop == fields[j].property_name(rename_all));
    }
    lemma_object_onto_untouched(JsObjectView::empty(), props, values, props.len(), key);
}

} // verus!
