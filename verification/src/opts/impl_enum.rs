//! The conversion of an enum.

use crate::internal::js_value::JsValueView;
use crate::opts::code::{
    ArmCode, ArmCodeView, ArmPattern, ArmPatternView, EnumCode, EnumCodeView, FieldBinding,
    FieldBindingView, PropCode, StructConversion, StructConversionView, VariantConversion,
    VariantConversionView,
};
use crate::opts::enum_style::{EnumConvertJsStyle, EnumConvertJsStyleView};
use crate::opts::field::{IndexedFieldOpts, NamedFieldOpts, NamedFieldOptsView};
use crate::opts::impl_struct::ImplStruct;
use crate::opts::opts::{ConvertJsOptsStructData, ConvertJsOptsStructDataView};
use crate::opts::variant::{VariantOpts, VariantOptsView};
use crate::rename::{RenameRule, RenameView};
use crate::to_js::ConvertedView;
use crate::util::diagnostic::{Diagnostic, DiagnosticView};
use crate::util::outcome::{
    collected, deep, lemma_collected_ok, lemma_deep_push, lemma_first_error_at,
    lemma_first_error_none,
};
use crate::util::text::{decimal, push_decimal};
use vstd::prelude::*;
use vstd::string::StringExecFns;

verus! {

/// What is needed to write the conversion of an enum.
#[derive(Debug)]
pub struct ImplEnum<'a> {
    pub ident: &'a str,
    pub variants: &'a Vec<VariantOpts>,
    pub convert_style: &'a EnumConvertJsStyle,
    /// The rule for the tags of the variants.
    pub rename_all: Option<&'a RenameRule>,
}

/// The mathematical value of an [`ImplEnum`].
pub ghost struct ImplEnumView {
    pub ident: Seq<char>,
    pub variants: Seq<VariantOptsView>,
    pub convert_style: EnumConvertJsStyleView,
    pub rename_all: Option<RenameRule>,
}

impl<'a> View for ImplEnum<'a> {
    type V = ImplEnumView;

    open spec fn view(&self) -> ImplEnumView {
        ImplEnumView {
            ident: self.ident@,
            variants: self.variants.deep_view(),
            convert_style: self.convert_style@,
            rename_all: match self.rename_all {
                Some(rule) => Some(*rule),
                None => None,
            },
        }
    }
}

/// The name under which an arm reads the content of its variant.
pub open spec fn variant_value() -> Seq<char> {
    "__value_of_enum_variant"@
}

/// The name to which an arm binds the field at position `index` of a tuple.
pub open spec fn binding_name(prefix: Seq<char>, index: int) -> Seq<char> {
    prefix + "__"@ + decimal(index as nat)
}

/// The name of the struct that an arm declares for the fields of an object.
pub open spec fn struct_name(value_ident: Seq<char>) -> Seq<char> {
    "Object__"@ + value_ident
}

impl VariantOptsView {
    /// The tag of the variant: by its own renaming first, else by the rule
    /// of the enum, else its name as declared.
    pub open spec fn tag(self, rename_all: Option<RenameRule>) -> Seq<char> {
        match self.rename {
            Some(rename) => rename.variant_name(self.ident),
            None => match rename_all {
                Some(rule) => rule.variant_name(self.ident),
                None => self.ident,
            },
        }
    }
}

/// The tag of a variant is settled in four steps, the earlier before the
/// later: a renaming of the variant to a name written out in full; a rule
/// given on the variant; the rule of the enum; the name as declared.
pub proof fn lemma_tag_precedence(variant: VariantOptsView, rename_all: Option<RenameRule>)
    ensures
        variant.rename matches Some(RenameView::Literal(name)) ==> variant.tag(rename_all) == name,
        variant.rename matches Some(RenameView::WithRule(rule)) ==> variant.tag(rename_all)
            == rule.variant_name(variant.ident),
        variant.rename is None ==> (rename_all matches Some(rule) ==> variant.tag(rename_all)
            == rule.variant_name(variant.ident)),
        variant.rename is None && rename_all is None ==> variant.tag(rename_all) == variant.ident,
{
}

/// The error for an enum called `ident` that has no variants.
pub open spec fn empty_enum_error(ident: Seq<char>) -> DiagnosticView {
    DiagnosticView { at: ident, message: "macro ToJs currently doesn't support empty enums."@ }
}

/// The error for a variant without named fields in an enum whose tag is a
/// property among those of the content.
pub open spec fn internal_tag_error(ident: Seq<char>) -> DiagnosticView {
    DiagnosticView {
        at: ident,
        message: "internally tagged enum must not contain variant `"@ + ident
            + "` in NewType or Tuple style"@,
    }
}

/// The error for a unit variant that is not the first one of an enum
/// without tags.
pub open spec fn second_unit_error(ident: Seq<char>) -> DiagnosticView {
    DiagnosticView {
        at: ident,
        message: "untagged enum must not contain more than one unit variant, found `"@ + ident
            + "`"@,
    }
}

/// The conversion of one variant under a style.
///
/// `rename_all` is the rule of the enum, and `earlier_unit` says whether a
/// unit variant is declared before this one, which only an enum without
/// tags asks about.
pub open spec fn variant_conversion(
    variant: VariantOptsView,
    style: EnumConvertJsStyleView,
    rename_all: Option<RenameRule>,
    earlier_unit: bool,
) -> Result<VariantConversionView, DiagnosticView> {
    let tag = variant.tag(rename_all);
    let content = variant.data.conversion();
    match style {
        EnumConvertJsStyleView::Union => match content {
            None => Ok(VariantConversionView::Tag { tag }),
            Some(content) => Ok(VariantConversionView::Content(content)),
        },
        EnumConvertJsStyleView::Untagged => match content {
            None => if earlier_unit {
                Err(second_unit_error(variant.ident))
            } else {
                Ok(VariantConversionView::Undefined)
            },
            Some(content) => Ok(VariantConversionView::Content(content)),
        },
        EnumConvertJsStyleView::External => match content {
            None => Ok(VariantConversionView::Tag { tag }),
            Some(content) => Ok(VariantConversionView::External { tag, content: Some(content) }),
        },
        EnumConvertJsStyleView::AllExternal => Ok(VariantConversionView::External { tag, content }),
        EnumConvertJsStyleView::Internal { tag: tag_prop } => match content {
            None => Ok(VariantConversionView::Internal { tag_prop, tag, props: Seq::empty() }),
            Some(StructConversionView::Object { props }) => Ok(
                VariantConversionView::Internal { tag_prop, tag, props },
            ),
            Some(_) => Err(internal_tag_error(variant.ident)),
        },
        EnumConvertJsStyleView::Adjacent { tag: tag_prop, content: content_prop } => Ok(
            VariantConversionView::Adjacent { tag_prop, tag, content_prop, content },
        ),
    }
}

/// The binding of the field at position `i` of an object.
pub open spec fn field_binding(fields: Seq<NamedFieldOptsView>, i: int)
    -> FieldBindingView {
    FieldBindingView { ident: fields[i].ident, ty: fields[i].ty }
}

/// How the arm of a variant takes it apart, by the shape of its content.
pub open spec fn arm_pattern(data: ConvertJsOptsStructDataView, value_ident: Seq<char>)
    -> ArmPatternView {
    match data {
        ConvertJsOptsStructDataView::Unit => ArmPatternView::Unit,
        ConvertJsOptsStructDataView::NewType(_) => ArmPatternView::NewType,
        ConvertJsOptsStructDataView::Tuple(fields) => ArmPatternView::Tuple {
            bindings: Seq::new(fields.len(), |i: int| binding_name(value_ident, fields[i].index)),
        },
        ConvertJsOptsStructDataView::Object { fields, .. } => ArmPatternView::Object {
            struct_ident: struct_name(value_ident),
            fields: Seq::new(fields.len(), |i: int| field_binding(fields, i)),
        },
    }
}

/// The arm of a variant around the conversion `body`.
pub open spec fn arm_of(variant: VariantOptsView, value_ident: Seq<char>, body: VariantConversionView)
    -> ArmCodeView {
    ArmCodeView {
        variant: variant.ident,
        value_ident,
        pattern: arm_pattern(variant.data, value_ident),
        body,
    }
}

impl ImplEnumView {
    /// Whether a unit variant is declared before position `n`.
    pub open spec fn unit_before(self, n: int) -> bool {
        exists|j: int| 0 <= j < n && j < self.variants.len() && (#[trigger] self.variants[j]).data is Unit
    }

    /// The arm of the variant at position `i`, or why it has none.
    pub open spec fn arm(self, i: int) -> Result<ArmCodeView, DiagnosticView> {
        match variant_conversion(
            self.variants[i],
            self.convert_style,
            self.rename_all,
            self.unit_before(i),
        ) {
            Ok(body) => Ok(arm_of(self.variants[i], variant_value(), body)),
            Err(error) => Err(error),
        }
    }

    /// The arms of all variants, in the order of declaration.
    pub open spec fn arms(self) -> Seq<Result<ArmCodeView, DiagnosticView>> {
        Seq::new(self.variants.len(), |i: int| self.arm(i))
    }

    /// The conversion of the enum: one arm for each variant. An enum
    /// without variants has none, which is an error; so is the first
    /// variant that has no arm under the style.
    pub open spec fn code(self) -> Result<EnumCodeView, Seq<DiagnosticView>> {
        if self.variants.len() == 0 {
            Err(seq![empty_enum_error(self.ident)])
        } else {
            match collected(self.arms()) {
                Ok(arms) => Ok(EnumCodeView { arms }),
                Err(error) => Err(seq![error]),
            }
        }
    }
}

fn single_error(error: Diagnostic) -> (r: Vec<Diagnostic>)
    ensures
        r.deep_view() == seq![error@],
{
    let mut errors: Vec<Diagnostic> = Vec::new();
    proof {
        lemma_deep_push(errors@, error);
        assert(deep(errors@).push(error@) =~= seq![error@]);
    }
    errors.push(error);
    errors
}

fn variant_tag(variant: &VariantOpts, rename_all: Option<&RenameRule>) -> (r: String)
    ensures
        r@ == variant@.tag(
            match rename_all {
                Some(rule) => Some(*rule),
                None => None,
            },
        ),
{
    if let Some(rename) = &variant.rename {
        rename.rename_variant(variant.ident.as_str())
    } else if let Some(rename_all) = rename_all {
        rename_all.apply_to_variant(variant.ident.as_str())
    } else {
        variant.ident.clone()
    }
}

fn indexed_fields_to_tuple_content(fields: &Vec<IndexedFieldOpts>, value_ident_prefix: &str) -> (r:
    Vec<String>)
    ensures
        r.deep_view() == Seq::new(
            fields@.len(),
            |i: int| binding_name(value_ident_prefix@, fields.deep_view()[i].index),
        ),
{
    let mut list: Vec<String> = Vec::new();
    let mut i: usize = 0;
    while i < fields.len()
        invariant
            i <= fields.len(),
            deep(list@) == Seq::new(
                i as nat,
                |j: int| binding_name(value_ident_prefix@, fields.deep_view()[j].index),
            ),
        decreases fields.len() - i,
    {
        let mut name = value_ident_prefix.to_owned();
        name.append("__");
        push_decimal(&mut name, fields[i].index);
        proof {
            assert(fields.deep_view()[i as int].index == fields[i as int].index);
            lemma_deep_push(list@, name);
            assert(Seq::new(
                i as nat,
                |j: int| binding_name(value_ident_prefix@, fields.deep_view()[j].index),
            ).push(name@) =~= Seq::new(
                (i + 1) as nat,
                |j: int| binding_name(value_ident_prefix@, fields.deep_view()[j].index),
            ));
        }
        list.push(name);
        i += 1;
    }
    list
}

fn field_bindings(fields: &Vec<NamedFieldOpts>) -> (r: Vec<FieldBinding>)
    ensures
        r.deep_view() == Seq::new(fields@.len(), |i: int| field_binding(fields.deep_view(), i)),
{
    let mut list: Vec<FieldBinding> = Vec::new();
    let mut i: usize = 0;
    while i < fields.len()
        invariant
            i <= fields.len(),
            deep(list@) == Seq::new(i as nat, |j: int| field_binding(fields.deep_view(), j)),
        decreases fields.len() - i,
    {
        let binding = FieldBinding { ident: fields[i].ident.clone(), ty: fields[i].ty.clone() };
        proof {
            assert(fields.deep_view()[i as int] == fields[i as int]@);
            lemma_deep_push(list@, binding);
            assert(Seq::new(i as nat, |j: int| field_binding(fields.deep_view(), j)).push(
                binding@,
            ) =~= Seq::new((i + 1) as nat, |j: int| field_binding(fields.deep_view(), j)));
        }
        list.push(binding);
        i += 1;
    }
    list
}

/// The arm of a variant: how it is taken apart, around its conversion.
fn enum_variant_impl_to_js(variant: &VariantOpts, value_ident: &str, impl_code: VariantConversion)
    -> (r: ArmCode)
    ensures
        r@ == arm_of(variant@, value_ident@, impl_code@),
{
    let pattern = match &variant.data {
        ConvertJsOptsStructData::Unit => ArmPattern::Unit,
        ConvertJsOptsStructData::NewType(_) => ArmPattern::NewType,
        ConvertJsOptsStructData::Tuple(fields) => {
            let bindings = indexed_fields_to_tuple_content(fields, value_ident);
            assert(bindings.deep_view() =~= arm_pattern(
                variant@.data,
                value_ident@,
            )->Tuple_bindings);
            ArmPattern::Tuple { bindings }
        },
        ConvertJsOptsStructData::Object { fields, .. } => {
            let mut struct_ident = String::from_str("Object__");
            struct_ident.append(value_ident);
            let fields = field_bindings(fields);
            assert(fields.deep_view() =~= arm_pattern(variant@.data, value_ident@)->Object_fields);
            ArmPattern::Object { struct_ident, fields }
        },
    };
    ArmCode {
        variant: variant.ident.clone(),
        value_ident: value_ident.to_owned(),
        pattern,
        body: impl_code,
    }
}

/// The conversion of one variant under a style.
fn variant_impl_to_js(
    variant: &VariantOpts,
    style: &EnumConvertJsStyle,
    rename_all: Option<&RenameRule>,
    earlier_unit: bool,
) -> (r: Result<VariantConversion, Diagnostic>)
    ensures
        match r {
            Ok(body) => Ok::<VariantConversionView, DiagnosticView>(body@),
            Err(error) => Err(error@),
        } == variant_conversion(
            variant@,
            style@,
            match rename_all {
                Some(rule) => Some(*rule),
                None => None,
            },
            earlier_unit,
        ),
{
    let tag = variant_tag(variant, rename_all);
    let content: Option<StructConversion> = match &variant.data {
        ConvertJsOptsStructData::Unit => None,
        data => {
            let code = ImplStruct {
                data,
                ident: variant.ident.as_str(),
                value_ident: Some("__value_of_enum_variant"),
            }.impl_to_js();
            match code {
                Ok(code) => Some(code.conversion),
                Err(_) => None,
            }
        },
    };
    match style {
        EnumConvertJsStyle::Union => match content {
            None => Ok(VariantConversion::Tag { tag }),
            Some(content) => Ok(VariantConversion::Content(content)),
        },
        EnumConvertJsStyle::Untagged => match content {
            None => {
                if earlier_unit {
                    let mut message = String::from_str(
                        "untagged enum must not contain more than one unit variant, found `",
                    );
                    message.append(variant.ident.as_str());
                    message.append("`");
                    Err(Diagnostic { at: variant.ident.clone(), message })
                } else {
                    Ok(VariantConversion::Undefined)
                }
            },
            Some(content) => Ok(VariantConversion::Content(content)),
        },
        EnumConvertJsStyle::External => match content {
            None => Ok(VariantConversion::Tag { tag }),
            Some(content) => Ok(VariantConversion::External { tag, content: Some(content) }),
        },
        EnumConvertJsStyle::AllExternal => Ok(VariantConversion::External { tag, content }),
        EnumConvertJsStyle::Internal { tag: tag_prop } => match content {
            None => {
                let props: Vec<PropCode> = Vec::new();
                assert(props.deep_view() =~= Seq::empty());
                Ok(VariantConversion::Internal { tag_prop: tag_prop.clone(), tag, props })
            },
            Some(StructConversion::Object { props }) => Ok(
                VariantConversion::Internal { tag_prop: tag_prop.clone(), tag, props },
            ),
            Some(_) => {
                let mut message = String::from_str(
                    "internally tagged enum must not contain variant `",
                );
                message.append(variant.ident.as_str());
                message.append("` in NewType or Tuple style");
                Err(Diagnostic { at: variant.ident.clone(), message })
            },
        },
        EnumConvertJsStyle::Adjacent { tag: tag_prop, content: content_prop } => Ok(
            VariantConversion::Adjacent {
                tag_prop: tag_prop.clone(),
                tag,
                content_prop: content_prop.clone(),
                content,
            },
        ),
    }
}

impl<'a> ImplEnum<'a> {
    /// Writes the conversion of the enum: an arm for each variant, in the
    /// order of declaration, each with the conversion that the style gives
    /// the variant.
    pub fn impl_to_js(&self) -> (r: Result<EnumCode, Vec<Diagnostic>>)
        ensures
            match r {
                Ok(code) => Ok::<EnumCodeView, Seq<DiagnosticView>>(code@),
                Err(errors) => Err(errors.deep_view()),
            } == self@.code(),
    {
        if self.variants.len() == 0 {
            return Err(
                single_error(
                    Diagnostic::new(self.ident, "macro ToJs currently doesn't support empty enums."),
                ),
            );
        }
        let ghost all = self@.arms();
        let mut arms: Vec<ArmCode> = Vec::new();
        let mut earlier_unit = false;
        let mut i: usize = 0;
        while i < self.variants.len()
            invariant
                i <= self.variants.len(),
                all == self@.arms(),
                earlier_unit == self@.unit_before(i as int),
                forall|j: int| 0 <= j < i ==> (#[trigger] all[j]) is Ok,
                deep(arms@) == Seq::new(i as nat, |j: int| all[j]->Ok_0),
            decreases self.variants.len() - i,
        {
            let variant = &self.variants[i];
            assert(self@.variants[i as int] == variant@);
            match variant_impl_to_js(variant, self.convert_style, self.rename_all, earlier_unit) {
                Ok(body) => {
                    let arm = enum_variant_impl_to_js(variant, "__value_of_enum_variant", body);
                    proof {
                        assert(all[i as int] == Ok::<ArmCodeView, DiagnosticView>(arm@));
                        lemma_deep_push(arms@, arm);
                        assert(Seq::new(i as nat, |j: int| all[j]->Ok_0).push(arm@) =~= Seq::new(
                            (i + 1) as nat,
                            |j: int| all[j]->Ok_0,
                        ));
                    }
                    arms.push(arm);
                },
                Err(error) => {
                    proof {
                        assert(all[i as int] == Err::<ArmCodeView, DiagnosticView>(error@));
                        lemma_first_error_at(all, i as int);
                    }
                    return Err(single_error(error));
                },
            }
            proof {
                let before = self@.unit_before(i as int);
                let after = self@.unit_before(i + 1);
                if before || variant@.data is Unit {
                    let j = if before {
                        choose|j: int|
                            0 <= j < i && j < self@.variants.len() && (
                            #[trigger] self@.variants[j]).data is Unit
                    } else {
                        i as int
                    };
                    assert(0 <= j < i + 1 && self@.variants[j].data is Unit);
                }
            }
            earlier_unit = earlier_unit || matches!(variant.data, ConvertJsOptsStructData::Unit);
            i += 1;
        }
        proof {
            lemma_first_error_none(all);
            assert(deep(arms@) =~= Seq::new(all.len(), |j: int| all[j]->Ok_0));
        }
        Ok(EnumCode { arms })
    }
}

/// In the union style a unit variant converts as the string of its tag,
/// and any other variant as its content does, with nothing around it.
pub proof fn lemma_union_variant(
    variant: VariantOptsView,
    rename_all: Option<RenameRule>,
    earlier_unit: bool,
    values: Seq<ConvertedView>,
)
    ensures
        variant_conversion(variant, EnumConvertJsStyleView::Union, rename_all, earlier_unit) is Ok,
        variant.data is Unit ==> variant_conversion(
            variant,
            EnumConvertJsStyleView::Union,
            rename_all,
            earlier_unit,
        )->Ok_0.convert(values) == JsValueView::String(variant.tag(rename_all)),
        !(variant.data is Unit) ==> variant_conversion(
            variant,
            EnumConvertJsStyleView::Union,
            rename_all,
            earlier_unit,
        )->Ok_0.convert(values) == variant.data.conversion()->0.convert(values),
{
}

/// Where an enum has a conversion, every variant has exactly one arm in it,
/// at its own position and under its own name.
pub proof fn lemma_one_arm_for_each_variant(this: ImplEnumView)
    requires
        this.code() is Ok,
    ensures
        this.variants.len() > 0,
        this.code()->Ok_0.arms.len() == this.variants.len(),
        forall|i: int|
            0 <= i < this.variants.len() ==> {
                &&& this.arm(i) is Ok
                &&& (#[trigger] this.code()->Ok_0.arms[i]) == this.arm(i)->Ok_0
                &&& this.code()->Ok_0.arms[i].variant == this.variants[i].ident
            },
{
    let arms = this.arms();
    lemma_collected_ok(arms);
    assert forall|i: int| 0 <= i < this.variants.len() implies {
        &&& this.arm(i) is Ok
        &&& (#[trigger] this.code()->Ok_0.arms[i]) == this.arm(i)->Ok_0
        &&& this.code()->Ok_0.arms[i].variant == this.variants[i].ident
    } by {
        assert(arms[i] == this.arm(i));
    }
}

/// An enum without variants has no conversion.
pub proof fn lemma_empty_enum_is_refused(this: ImplEnumView)
    requires
        this.variants.len() == 0,
    ensures
        this.code() == Err::<EnumCodeView, Seq<DiagnosticView>>(
            seq![empty_enum_error(this.ident)],
        ),
{
}

} // verus!
