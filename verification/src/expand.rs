//! From the declared options of a type to the implementation of its
//! conversion.

use crate::opts::ast::{
    DataView, GenericParam, GenericParamView, Generics, GenericsView, Style,
};
use crate::opts::code::{EnumCode, EnumCodeView};
use crate::opts::enum_style::EnumConvertJsStyleView;
use crate::opts::field::struct_shape;
use crate::opts::impl_enum::{ImplEnum, ImplEnumView};
use crate::opts::impl_struct::{unit_struct_error, ImplStruct, StructCode, StructCodeView};
use crate::opts::opts::{
    errors_of, ConvertJsOpts, ConvertJsOptsData, ConvertJsOptsDataView, ConvertJsOptsInput,
    ConvertJsOptsInputView, ConvertJsOptsView,
};
use crate::util::diagnostic::{Diagnostic, DiagnosticView};
use crate::util::outcome::{all_errors, deep, lemma_deep_push};
use crate::util::present::{conflict_message, not_present};
use vstd::prelude::*;

verus! {

/// How the bound that a type parameter must convert is joined to its
/// declaration: after a `+` where the declaration has a colon, else after
/// a colon.
#[derive(Debug, Clone, Copy, PartialEq, Eq, Structural)]
pub enum BoundJoin {
    Plus,
    Colon,
}

/// One parameter of the implementation, as it is declared there.
#[derive(Debug)]
pub enum GenericDef {
    /// A type parameter, which gets the bound that it converts; its default
    /// stands after the bound.
    Type { decl: String, join: BoundJoin, default: Option<String> },
    /// A lifetime parameter, as declared.
    Lifetime { decl: String },
    /// A const parameter, as declared.
    Const { decl: String },
}

/// The mathematical value of a [`GenericDef`].
pub ghost enum GenericDefView {
    Type { decl: Seq<char>, join: BoundJoin, default: Option<Seq<char>> },
    Lifetime { decl: Seq<char> },
    Const { decl: Seq<char> },
}

impl View for GenericDef {
    type V = GenericDefView;

    open spec fn view(&self) -> GenericDefView {
        match self {
            GenericDef::Type { decl, join, default } => GenericDefView::Type {
                decl: decl@,
                join: *join,
                default: default.deep_view(),
            },
            GenericDef::Lifetime { decl } => GenericDefView::Lifetime { decl: decl@ },
            GenericDef::Const { decl } => GenericDefView::Const { decl: decl@ },
        }
    }
}

impl DeepView for GenericDef {
    type V = GenericDefView;

    open spec fn deep_view(&self) -> GenericDefView {
        self@
    }
}

/// The body of the conversion function.
#[derive(Debug)]
pub enum ImplBody {
    Struct(StructCode),
    Enum(EnumCode),
}

/// The mathematical value of an [`ImplBody`].
pub ghost enum ImplBodyView {
    Struct(StructCodeView),
    Enum(EnumCodeView),
}

impl View for ImplBody {
    type V = ImplBodyView;

    open spec fn view(&self) -> ImplBodyView {
        match self {
            ImplBody::Struct(code) => ImplBodyView::Struct(code@),
            ImplBody::Enum(code) => ImplBodyView::Enum(code@),
        }
    }
}

impl DeepView for ImplBody {
    type V = ImplBodyView;

    open spec fn deep_view(&self) -> ImplBodyView {
        self@
    }
}

/// The implementation of the conversion for one type: the parameters that
/// it declares, the type with the names of its parameters, the `where`
/// clause, and the body of the conversion function.
#[derive(Debug)]
pub struct ImplCode {
    pub ident: String,
    /// The declared parameters; `None` where the type has no angle brackets.
    pub generic_defs: Option<Vec<GenericDef>>,
    /// The names of the parameters; `None` together with `generic_defs`.
    pub generic_names: Option<Vec<String>>,
    pub where_clause: Option<String>,
    pub body: ImplBody,
}

/// The mathematical value of an [`ImplCode`].
pub ghost struct ImplCodeView {
    pub ident: Seq<char>,
    pub generic_defs: Option<Seq<GenericDefView>>,
    pub generic_names: Option<Seq<Seq<char>>>,
    pub where_clause: Option<Seq<char>>,
    pub body: ImplBodyView,
}

impl View for ImplCode {
    type V = ImplCodeView;

    open spec fn view(&self) -> ImplCodeView {
        ImplCodeView {
            ident: self.ident@,
            generic_defs: self.generic_defs.deep_view(),
            generic_names: self.generic_names.deep_view(),
            where_clause: self.where_clause.deep_view(),
            body: self.body@,
        }
    }
}

impl DeepView for ImplCode {
    type V = ImplCodeView;

    open spec fn deep_view(&self) -> ImplCodeView {
        self@
    }
}

impl GenericParamView {
    /// The parameter as the implementation declares it: a type parameter
    /// with the bound that it converts, any other as it is.
    pub open spec fn def(self) -> GenericDefView {
        match self {
            GenericParamView::Type { decl, bounded, default, .. } => GenericDefView::Type {
                decl,
                join: if bounded {
                    BoundJoin::Plus
                } else {
                    BoundJoin::Colon
                },
                default,
            },
            GenericParamView::Lifetime { decl, .. } => GenericDefView::Lifetime { decl },
            GenericParamView::Const { decl, .. } => GenericDefView::Const { decl },
        }
    }

    /// The name by which the parameter is handed on to the type.
    pub open spec fn name(self) -> Seq<char> {
        match self {
            GenericParamView::Type { ident, .. } => ident,
            GenericParamView::Lifetime { lifetime, .. } => lifetime,
            GenericParamView::Const { ident, .. } => ident,
        }
    }
}

impl GenericsView {
    /// Whether both angle brackets are written.
    pub open spec fn bracketed(self) -> bool {
        self.lt_token && self.gt_token
    }

    /// The parameters as the implementation declares them.
    pub open spec fn defs(self) -> Option<Seq<GenericDefView>> {
        if self.bracketed() {
            Some(Seq::new(self.params.len(), |i: int| self.params[i].def()))
        } else {
            None
        }
    }

    /// The names of the parameters.
    pub open spec fn names(self) -> Option<Seq<Seq<char>>> {
        if self.bracketed() {
            Some(Seq::new(self.params.len(), |i: int| self.params[i].name()))
        } else {
            None
        }
    }
}

impl ConvertJsOptsView {
    /// The body of the conversion function, or the errors for which there
    /// is none.
    pub open spec fn body(self) -> Result<ImplBodyView, Seq<DiagnosticView>> {
        match self.data {
            ConvertJsOptsDataView::Enum { variants, convert_style, rename_all } => match (
            ImplEnumView { ident: self.ident, variants, convert_style, rename_all }).code() {
                Ok(code) => Ok(ImplBodyView::Enum(code)),
                Err(errors) => Err(errors),
            },
            ConvertJsOptsDataView::Struct { data } => match data.conversion() {
                Some(conversion) => Ok(
                    ImplBodyView::Struct(StructCodeView { value_ident: "self"@, conversion }),
                ),
                None => Err(seq![unit_struct_error(self.ident)]),
            },
        }
    }

    /// The implementation, or the errors for which there is none.
    pub open spec fn implementation(self) -> Result<ImplCodeView, Seq<DiagnosticView>> {
        match self.body() {
            Ok(body) => Ok(
                ImplCodeView {
                    ident: self.ident,
                    generic_defs: self.generics.defs(),
                    generic_names: self.generics.names(),
                    where_clause: self.generics.where_clause,
                    body,
                },
            ),
            Err(errors) => Err(errors),
        }
    }
}

/// Each message as an error at `at`.
pub open spec fn reported_at(at: Seq<char>, messages: Seq<Seq<char>>) -> Seq<DiagnosticView> {
    Seq::new(messages.len(), |i: int| DiagnosticView { at, message: messages[i] })
}

impl ConvertJsOptsInputView {
    /// What the derivation yields: the implementation of the conversion; or
    /// everything that is wrong with the settings, reported at the type; or
    /// the error for which checked settings have no conversion.
    pub open spec fn expanded(self) -> Result<ImplCodeView, Seq<DiagnosticView>> {
        match self.checked() {
            Ok(opts) => opts.implementation(),
            Err(messages) => Err(reported_at(self.ident, messages)),
        }
    }
}

fn report_at(at: &str, messages: Vec<String>) -> (r: Vec<Diagnostic>)
    ensures
        r.deep_view() == reported_at(at@, messages.deep_view()),
{
    let ghost all = messages.deep_view();
    let mut errors: Vec<Diagnostic> = Vec::new();
    for message in it: messages
        invariant
            it.seq() == messages@,
            all == messages.deep_view(),
            deep(errors@) == Seq::new(
                it.index() as nat,
                |j: int| DiagnosticView { at: at@, message: all[j] },
            ),
    {
        let ghost i = it.index();
        let error = Diagnostic { at: at.to_owned(), message };
        proof {
            assert(all[i] == message@);
            lemma_deep_push(errors@, error);
            assert(Seq::new(i as nat, |j: int| DiagnosticView { at: at@, message: all[j] }).push(
                error@,
            ) =~= Seq::new((i + 1) as nat, |j: int| DiagnosticView { at: at@, message: all[j] }));
        }
        errors.push(error);
    }
    errors
}

fn generic_def(param: &GenericParam) -> (r: GenericDef)
    ensures
        r@ == param@.def(),
{
    match param {
        GenericParam::Type { decl, bounded, default, .. } => GenericDef::Type {
            decl: decl.clone(),
            // add the bound to the type parameter
            join: if *bounded {
                BoundJoin::Plus
            } else {
                BoundJoin::Colon
            },
            default: match default {
                Some(default) => Some(default.clone()),
                None => None,
            },
        },
        GenericParam::Lifetime { decl, .. } => GenericDef::Lifetime { decl: decl.clone() },
        GenericParam::Const { decl, .. } => GenericDef::Const { decl: decl.clone() },
    }
}

fn generic_name(param: &GenericParam) -> (r: String)
    ensures
        r@ == param@.name(),
{
    match param {
        GenericParam::Type { ident, .. } => ident.clone(),
        GenericParam::Lifetime { lifetime, .. } => lifetime.clone(),
        GenericParam::Const { ident, .. } => ident.clone(),
    }
}

fn impl_generics(generics: &Generics) -> (r: (Option<Vec<GenericDef>>, Option<Vec<String>>))
    ensures
        r.0.deep_view() == generics@.defs(),
        r.1.deep_view() == generics@.names(),
{
    if generics.lt_token && generics.gt_token {
        let params = &generics.params;
        let mut defs: Vec<GenericDef> = Vec::new();
        let mut names: Vec<String> = Vec::new();
        let mut i: usize = 0;
        while i < params.len()
            invariant
                i <= params.len(),
                deep(defs@) == Seq::new(i as nat, |j: int| params.deep_view()[j].def()),
                deep(names@) == Seq::new(i as nat, |j: int| params.deep_view()[j].name()),
            decreases params.len() - i,
        {
            let def = generic_def(&params[i]);
            let name = generic_name(&params[i]);
            proof {
                assert(params.deep_view()[i as int] == params[i as int]@);
                lemma_deep_push(defs@, def);
                lemma_deep_push(names@, name);
                assert(Seq::new(i as nat, |j: int| params.deep_view()[j].def()).push(def@)
                    =~= Seq::new((i + 1) as nat, |j: int| params.deep_view()[j].def()));
                assert(Seq::new(i as nat, |j: int| params.deep_view()[j].name()).push(name@)
                    =~= Seq::new((i + 1) as nat, |j: int| params.deep_view()[j].name()));
            }
            defs.push(def);
            names.push(name);
            i += 1;
        }
        proof {
            assert(defs.deep_view() =~= generics@.defs()->0);
            assert(names.deep_view() =~= generics@.names()->0);
        }
        (Some(defs), Some(names))
    } else {
        (None, None)
    }
}

/// Derives the implementation of the conversion for a type from its
/// declared options.
///
/// The settings are checked first; everything wrong with them is reported
/// together, at the type. Checked settings yield the conversion of the
/// struct or of the enum, which is then put into an implementation that
/// asks of every type parameter that it converts too.
pub fn expand_derive_serialize(input: ConvertJsOptsInput) -> (r: Result<ImplCode, Vec<Diagnostic>>)
    ensures
        match r {
            Ok(code) => Ok::<ImplCodeView, Seq<DiagnosticView>>(code@),
            Err(errors) => Err(errors.deep_view()),
        } == input@.expanded(),
{
    let at = input.ident.clone();
    let ConvertJsOpts { ident, generics, data } = match ConvertJsOpts::try_from(input) {
        Ok(opts) => opts,
        Err(messages) => {
            return Err(report_at(at.as_str(), messages));
        },
    };

    let body = match data {
        ConvertJsOptsData::Enum { variants, convert_style, rename_all } => {
            let code = ImplEnum {
                ident: ident.as_str(),
                variants: &variants,
                convert_style: &convert_style,
                rename_all: rename_all.as_ref(),
            }.impl_to_js()?;
            ImplBody::Enum(code)
        },
        ConvertJsOptsData::Struct { data } => {
            let code = ImplStruct { data: &data, ident: ident.as_str(), value_ident: None }
                .impl_to_js()?;
            ImplBody::Struct(code)
        },
    };

    let (generic_defs, generic_names) = impl_generics(&generics);
    let where_clause = generics.where_clause;

    Ok(ImplCode { ident, generic_defs, generic_names, where_clause, body })
}

/// An enum that is given both `tag` and `untagged` has no implementation:
/// the derivation ends with an error that names a conflict.
pub proof fn lemma_conflicting_styles_are_refused(input: ConvertJsOptsInputView)
    requires
        input.data is Enum,
        input.tag is Some,
        input.untagged,
    ensures
        input.style_input().style() is Err,
        !input.all_external && !input.union ==> input.style_input().style() == Err::<
            EnumConvertJsStyleView,
            Seq<char>,
        >(conflict_message("untagged"@, "tag"@)),
        input.errors().contains(input.style_input().style()->Err_0),
        input.expanded() is Err,
{
    let conflict = input.style_input().style()->Err_0;
    let head = errors_of(not_present(input.new_type_as_tuple, "new_type_as_tuple"@, "enum"@));
    let tail = all_errors(input.variant_results(input.data->Enum_0));
    assert(input.errors() == head + seq![conflict] + tail);
    assert(input.errors()[head.len() as int] == conflict);
}

/// An enum without variants and a struct without a field list have no
/// implementation: the derivation ends with an error.
pub proof fn lemma_no_conversion_is_an_error(input: ConvertJsOptsInputView)
    requires
        input.data matches DataView::Enum(variants) ==> variants.len() == 0,
        input.data matches DataView::Struct(fields) ==> fields.style == Style::Unit,
    ensures
        input.expanded() is Err,
        input.expanded()->Err_0.len() > 0,
{
    if input.checked() is Ok {
        let opts = input.checked()->Ok_0;
        match input.data {
            DataView::Enum(variants) => {
                assert(opts.data->Enum_variants.len() == 0);
            },
            DataView::Struct(fields) => {
                assert(input.errors().len() == 0);
                let shape = struct_shape(fields, input.new_type_as_tuple, input.rename_all);
                if shape is Err {
                    assert(input.errors().last() == shape->Err_0);
                }
                assert(opts.data->Struct_data is Unit);
            },
        }
    } else {
        assert(input.expanded()->Err_0.len() == input.errors().len());
    }
}

} // verus!
