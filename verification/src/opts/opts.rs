//! The checked options of one derivation.

use crate::opts::ast::{Data, DataView, Generics, GenericsView};
use crate::opts::enum_style::{
    EnumConvertJsStyle, EnumConvertJsStyleInput, EnumConvertJsStyleInputView,
    EnumConvertJsStyleView,
};
use crate::opts::field::{
    check_fields, struct_shape, IndexedFieldOpts, IndexedFieldOptsView, NamedFieldOpts,
    NamedFieldOptsView, NewTypeFieldOpts, NewTypeFieldOptsView,
};
use crate::opts::variant::{VariantOpts, VariantOptsInputView, VariantOptsView};
use crate::rename::RenameRule;
use crate::util::outcome::{
    all_errors, deep, lemma_all_errors_empty, lemma_deep_push, result_view,
};
use crate::util::present::{ensure_not_present, not_present};
use vstd::prelude::*;

verus! {

/// The shape of a struct, or of the content of a variant.
#[derive(Debug)]
pub enum ConvertJsOptsStructData {
    /// No fields.
    Unit,
    /// A single unnamed field, converted as the field itself.
    NewType(NewTypeFieldOpts),
    /// Unnamed fields, converted as an array.
    Tuple(Vec<IndexedFieldOpts>),
    /// Named fields, converted as an object.
    Object { fields: Vec<NamedFieldOpts>, rename_all: Option<RenameRule> },
}

/// The mathematical value of a [`ConvertJsOptsStructData`].
pub ghost enum ConvertJsOptsStructDataView {
    Unit,
    NewType(NewTypeFieldOptsView),
    Tuple(Seq<IndexedFieldOptsView>),
    Object { fields: Seq<NamedFieldOptsView>, rename_all: Option<RenameRule> },
}

impl View for ConvertJsOptsStructData {
    type V = ConvertJsOptsStructDataView;

    open spec fn view(&self) -> ConvertJsOptsStructDataView {
        match self {
            ConvertJsOptsStructData::Unit => ConvertJsOptsStructDataView::Unit,
            ConvertJsOptsStructData::NewType(field) => ConvertJsOptsStructDataView::NewType(
                field@,
            ),
            ConvertJsOptsStructData::Tuple(fields) => ConvertJsOptsStructDataView::Tuple(
                fields.deep_view(),
            ),
            ConvertJsOptsStructData::Object {
                fields,
                rename_all,
            } => ConvertJsOptsStructDataView::Object {
                fields: fields.deep_view(),
                rename_all: *rename_all,
            },
        }
    }
}

impl DeepView for ConvertJsOptsStructData {
    type V = ConvertJsOptsStructDataView;

    open spec fn deep_view(&self) -> ConvertJsOptsStructDataView {
        self@
    }
}

impl ConvertJsOptsStructDataView {
    /// The invariant of a shape: the fields of a tuple carry their positions,
    /// and no two fields of an object share a name.
    pub open spec fn wf(self) -> bool {
        match self {
            ConvertJsOptsStructDataView::Tuple(fields) => forall|i: int|
                0 <= i < fields.len() ==> (#[trigger] fields[i]).index == i,
            ConvertJsOptsStructDataView::Object { fields, .. } => forall|i: int, j: int|
                0 <= i < j < fields.len() ==> (#[trigger] fields[i]).ident != (
                #[trigger] fields[j]).ident,
            _ => true,
        }
    }
}

/// The options of a derivation as declared: the type, and the settings
/// written on it.
#[derive(Debug)]
pub struct ConvertJsOptsInput {
    pub ident: String,
    pub generics: Generics,
    pub data: Data,
    /// The rule for the fields of a struct, or for the variants of an enum
    /// and the fields of those that have no rule of their own.
    pub rename_all: Option<RenameRule>,
    // the style of an enum
    pub all_external: bool,
    pub tag: Option<String>,
    pub content: Option<String>,
    pub untagged: bool,
    pub union: bool,
    // the style of a struct
    pub new_type_as_tuple: bool,
}

/// The mathematical value of a [`ConvertJsOptsInput`].
pub ghost struct ConvertJsOptsInputView {
    pub ident: Seq<char>,
    pub generics: GenericsView,
    pub data: DataView,
    pub rename_all: Option<RenameRule>,
    pub all_external: bool,
    pub tag: Option<Seq<char>>,
    pub content: Option<Seq<char>>,
    pub untagged: bool,
    pub union: bool,
    pub new_type_as_tuple: bool,
}

impl View for ConvertJsOptsInput {
    type V = ConvertJsOptsInputView;

    open spec fn view(&self) -> ConvertJsOptsInputView {
        ConvertJsOptsInputView {
            ident: self.ident@,
            generics: self.generics@,
            data: self.data@,
            rename_all: self.rename_all,
            all_external: self.all_external,
            tag: self.tag.deep_view(),
            content: self.content.deep_view(),
            untagged: self.untagged,
            union: self.union,
            new_type_as_tuple: self.new_type_as_tuple,
        }
    }
}

impl DeepView for ConvertJsOptsInput {
    type V = ConvertJsOptsInputView;

    open spec fn deep_view(&self) -> ConvertJsOptsInputView {
        self@
    }
}

/// The checked body of a type.
#[derive(Debug)]
pub enum ConvertJsOptsData {
    Enum {
        variants: Vec<VariantOpts>,
        convert_style: EnumConvertJsStyle,
        rename_all: Option<RenameRule>,
    },
    Struct { data: ConvertJsOptsStructData },
}

/// The mathematical value of a [`ConvertJsOptsData`].
pub ghost enum ConvertJsOptsDataView {
    Enum {
        variants: Seq<VariantOptsView>,
        convert_style: EnumConvertJsStyleView,
        rename_all: Option<RenameRule>,
    },
    Struct { data: ConvertJsOptsStructDataView },
}

impl View for ConvertJsOptsData {
    type V = ConvertJsOptsDataView;

    open spec fn view(&self) -> ConvertJsOptsDataView {
        match self {
            ConvertJsOptsData::Enum {
                variants,
                convert_style,
                rename_all,
            } => ConvertJsOptsDataView::Enum {
                variants: variants.deep_view(),
                convert_style: convert_style@,
                rename_all: *rename_all,
            },
            ConvertJsOptsData::Struct { data } => ConvertJsOptsDataView::Struct { data: data@ },
        }
    }
}

impl DeepView for ConvertJsOptsData {
    type V = ConvertJsOptsDataView;

    open spec fn deep_view(&self) -> ConvertJsOptsDataView {
        self@
    }
}

/// The checked options of a derivation.
#[derive(Debug)]
pub struct ConvertJsOpts {
    pub ident: String,
    pub generics: Generics,
    pub data: ConvertJsOptsData,
}

/// The mathematical value of a [`ConvertJsOpts`].
pub ghost struct ConvertJsOptsView {
    pub ident: Seq<char>,
    pub generics: GenericsView,
    pub data: ConvertJsOptsDataView,
}

impl View for ConvertJsOpts {
    type V = ConvertJsOptsView;

    open spec fn view(&self) -> ConvertJsOptsView {
        ConvertJsOptsView { ident: self.ident@, generics: self.generics@, data: self.data@ }
    }
}

impl DeepView for ConvertJsOpts {
    type V = ConvertJsOptsView;

    open spec fn deep_view(&self) -> ConvertJsOptsView {
        self@
    }
}

/// The error of a result, as a list: empty for a success.
pub open spec fn errors_of<T>(r: Result<T, Seq<char>>) -> Seq<Seq<char>> {
    match r {
        Ok(_) => Seq::empty(),
        Err(message) => seq![message],
    }
}

impl ConvertJsOptsInputView {
    /// The settings that choose the style of an enum.
    pub open spec fn style_input(self) -> EnumConvertJsStyleInputView {
        EnumConvertJsStyleInputView {
            all_external: self.all_external,
            tag: self.tag,
            content: self.content,
            untagged: self.untagged,
            union: self.union,
        }
    }

    /// Each variant, checked under the rule of the enum.
    pub open spec fn variant_results(self, variants: Seq<VariantOptsInputView>) -> Seq<
        Result<VariantOptsView, Seq<char>>,
    > {
        Seq::new(variants.len(), |i: int| variants[i].checked(self.rename_all))
    }

    /// Everything that is wrong with the settings, in the order in which it
    /// is looked for.
    ///
    /// - On an enum: `new_type_as_tuple`, which is for structs; the first
    ///   pair of style settings that cannot stand together; then, variant by
    ///   variant, the first thing wrong with each.
    /// - On a struct: each of `all_external`, `content`, `tag`, `union` and
    ///   `untagged`, which are for enums, in this order; then the first
    ///   thing wrong with the fields.
    pub open spec fn errors(self) -> Seq<Seq<char>> {
        match self.data {
            DataView::Enum(variants) => errors_of(
                not_present(self.new_type_as_tuple, "new_type_as_tuple"@, "enum"@),
            ) + errors_of(self.style_input().style()) + all_errors(self.variant_results(variants)),
            DataView::Struct(fields) => errors_of(
                not_present(self.all_external, "all_external"@, "struct"@),
            ) + errors_of(not_present(self.content is Some, "content"@, "struct"@)) + errors_of(
                not_present(self.tag is Some, "tag"@, "struct"@),
            ) + errors_of(not_present(self.union, "union"@, "struct"@)) + errors_of(
                not_present(self.untagged, "untagged"@, "struct"@),
            ) + errors_of(struct_shape(fields, self.new_type_as_tuple, self.rename_all)),
        }
    }

    /// The checked options, where nothing is wrong with the settings.
    pub open spec fn accepted(self) -> ConvertJsOptsView {
        ConvertJsOptsView {
            ident: self.ident,
            generics: self.generics,
            data: match self.data {
                DataView::Enum(variants) => ConvertJsOptsDataView::Enum {
                    variants: Seq::new(
                        variants.len(),
                        |i: int| self.variant_results(variants)[i]->Ok_0,
                    ),
                    convert_style: self.style_input().style()->Ok_0,
                    rename_all: self.rename_all,
                },
                DataView::Struct(fields) => ConvertJsOptsDataView::Struct {
                    data: struct_shape(fields, self.new_type_as_tuple, self.rename_all)->Ok_0,
                },
            },
        }
    }

    /// The checked options, or everything that is wrong with the settings.
    pub open spec fn checked(self) -> Result<ConvertJsOptsView, Seq<Seq<char>>> {
        if self.errors().len() == 0 {
            Ok(self.accepted())
        } else {
            Err(self.errors())
        }
    }
}

/// Takes the error of a result down, and hands on what a success holds.
fn note<T: DeepView>(r: Result<T, String>, errors: &mut Vec<String>) -> (value: Option<T>)
    ensures
        final(errors).deep_view() == old(errors).deep_view() + errors_of(result_view(r)),
        match r {
            Ok(v) => value == Some(v),
            Err(_) => value is None,
        },
{
    match r {
        Ok(v) => {
            assert(old(errors).deep_view() + errors_of(result_view(r)) =~= old(errors).deep_view());
            Some(v)
        },
        Err(message) => {
            proof {
                lemma_deep_push(errors@, message);
                assert(deep(errors@).push(message@) =~= old(errors).deep_view() + errors_of(
                    result_view(r),
                ));
            }
            errors.push(message);
            None
        },
    }
}

impl ConvertJsOpts {
    /// Checks the settings of a type against its kind and its body, and
    /// reports everything that is wrong with them together.
    pub fn try_from(value: ConvertJsOptsInput) -> (r: Result<Self, Vec<String>>)
        ensures
            match r {
                Ok(opts) => Ok::<ConvertJsOptsView, Seq<Seq<char>>>(opts@),
                Err(errors) => Err(errors.deep_view()),
            } == value@.checked(),
    {
        let ghost input = value@;
        let ConvertJsOptsInput {
            ident,
            generics,
            data,
            rename_all,
            all_external,
            content,
            tag,
            union,
            untagged,
            new_type_as_tuple,
        } = value;
        let mut errors: Vec<String> = Vec::new();
        assert(errors.deep_view() =~= Seq::empty());

        match data {
            Data::Enum(variants) => {
                note(ensure_not_present(&new_type_as_tuple, "new_type_as_tuple", "enum"), &mut errors);
                let convert_style = note(
                    EnumConvertJsStyle::try_from(
                        EnumConvertJsStyleInput { all_external, content, tag, union, untagged },
                    ),
                    &mut errors,
                );
                let ghost head = errors.deep_view();
                let ghost results = input.variant_results(variants.deep_view());
                let mut checked: Vec<VariantOpts> = Vec::new();
                for var in it: variants
                    invariant
                        it.seq() == variants@,
                        results == input.variant_results(variants.deep_view()),
                        input.rename_all == rename_all,
                        errors.deep_view() == head + all_errors(results.take(it.index())),
                        all_errors(results.take(it.index())).len() == 0 ==> deep(checked@)
                            == Seq::new(it.index() as nat, |j: int| results[j]->Ok_0),
                {
                    let ghost i = it.index();
                    assert(variants.deep_view()[i] == var@);
                    let ghost before = deep(checked@);
                    proof {
                        assert(results.take(i + 1).drop_last() =~= results.take(i));
                        assert(results.take(i + 1).last() == results[i]);
                        lemma_all_errors_empty(results.take(i));
                    }
                    let r = VariantOpts::try_from_input(var, rename_all);
                    assert(result_view(r) == results[i]);
                    match note(r, &mut errors) {
                        Some(variant) => {
                            proof {
                                lemma_deep_push(checked@, variant);
                                assert(errors.deep_view() =~= head + all_errors(
                                    results.take(i + 1),
                                ));
                                if all_errors(results.take(i + 1)).len() == 0 {
                                    assert(before.push(variant@) =~= Seq::new(
                                        (i + 1) as nat,
                                        |j: int| results[j]->Ok_0,
                                    ));
                                }
                            }
                            checked.push(variant);
                        },
                        None => {
                            assert(errors.deep_view() =~= head + all_errors(results.take(i + 1)));
                        },
                    }
                }
                proof {
                    assert(results.take(results.len() as int) =~= results);
                    assert(errors.deep_view() =~= input.errors());
                }
                if errors.len() > 0 {
                    return Err(errors);
                }
                match convert_style {
                    Some(convert_style) => {
                        assert(checked.deep_view() =~= input.accepted().data->Enum_variants);
                        Ok(
                            ConvertJsOpts {
                                ident,
                                generics,
                                data: ConvertJsOptsData::Enum {
                                    variants: checked,
                                    convert_style,
                                    rename_all,
                                },
                            },
                        )
                    },
                    None => Err(errors),
                }
            },
            Data::Struct(fields) => {
                note(ensure_not_present(&all_external, "all_external", "struct"), &mut errors);
                note(ensure_not_present(&content, "content", "struct"), &mut errors);
                note(ensure_not_present(&tag, "tag", "struct"), &mut errors);
                note(ensure_not_present(&union, "union", "struct"), &mut errors);
                note(ensure_not_present(&untagged, "untagged", "struct"), &mut errors);
                let data = note(check_fields(fields, new_type_as_tuple, rename_all), &mut errors);
                proof {
                    assert(errors.deep_view() =~= input.errors());
                }
                if errors.len() > 0 {
                    return Err(errors);
                }
                match data {
                    Some(data) => Ok(
                        ConvertJsOpts { ident, generics, data: ConvertJsOptsData::Struct { data } },
                    ),
                    None => Err(errors),
                }
            },
        }
    }
}

} // verus!
