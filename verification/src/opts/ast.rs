//! The declared parts of a type, as plain values.

use crate::opts::field::{FieldOptsInput, FieldOptsInputView};
use crate::opts::variant::{VariantOptsInput, VariantOptsInputView};
use vstd::prelude::*;

verus! {

/// How the fields of a struct or of a variant are written.
#[derive(Debug, Clone, Copy, PartialEq, Eq, Structural)]
pub enum Style {
    /// `(A, B)`
    Tuple,
    /// `{ a: A, b: B }`
    Struct,
    /// No field list at all.
    Unit,
}

/// The fields of a struct or of a variant, in the order of declaration.
#[derive(Debug)]
pub struct Fields {
    pub style: Style,
    pub fields: Vec<FieldOptsInput>,
}

/// The mathematical value of [`Fields`].
pub ghost struct FieldsView {
    pub style: Style,
    pub fields: Seq<FieldOptsInputView>,
}

impl View for Fields {
    type V = FieldsView;

    open spec fn view(&self) -> FieldsView {
        FieldsView { style: self.style, fields: self.fields.deep_view() }
    }
}

impl DeepView for Fields {
    type V = FieldsView;

    open spec fn deep_view(&self) -> FieldsView {
        self@
    }
}

/// The body of a type: the variants of an enum, or the fields of a struct.
#[derive(Debug)]
pub enum Data {
    Enum(Vec<VariantOptsInput>),
    Struct(Fields),
}

/// The mathematical value of [`Data`].
pub ghost enum DataView {
    Enum(Seq<VariantOptsInputView>),
    Struct(FieldsView),
}

impl View for Data {
    type V = DataView;

    open spec fn view(&self) -> DataView {
        match self {
            Data::Enum(variants) => DataView::Enum(variants.deep_view()),
            Data::Struct(fields) => DataView::Struct(fields@),
        }
    }
}

impl DeepView for Data {
    type V = DataView;

    open spec fn deep_view(&self) -> DataView {
        self@
    }
}

/// One parameter of a generic type. The texts are kept as they are written.
#[derive(Debug)]
pub enum GenericParam {
    /// A type parameter: its declaration without the default, its name,
    /// whether the declaration has a colon, and the default if it has one.
    Type { decl: String, ident: String, bounded: bool, default: Option<String> },
    /// A lifetime parameter: its declaration, and the lifetime alone.
    Lifetime { decl: String, lifetime: String },
    /// A const parameter: its declaration, and its name.
    Const { decl: String, ident: String },
}

/// The mathematical value of a [`GenericParam`].
pub ghost enum GenericParamView {
    Type { decl: Seq<char>, ident: Seq<char>, bounded: bool, default: Option<Seq<char>> },
    Lifetime { decl: Seq<char>, lifetime: Seq<char> },
    Const { decl: Seq<char>, ident: Seq<char> },
}

impl View for GenericParam {
    type V = GenericParamView;

    open spec fn view(&self) -> GenericParamView {
        match self {
            GenericParam::Type { decl, ident, bounded, default } => GenericParamView::Type {
                decl: decl@,
                ident: ident@,
                bounded: *bounded,
                default: default.deep_view(),
            },
            GenericParam::Lifetime { decl, lifetime } => GenericParamView::Lifetime {
                decl: decl@,
                lifetime: lifetime@,
            },
            GenericParam::Const { decl, ident } => GenericParamView::Const {
                decl: decl@,
                ident: ident@,
            },
        }
    }
}

impl DeepView for GenericParam {
    type V = GenericParamView;

    open spec fn deep_view(&self) -> GenericParamView {
        self@
    }
}

/// The generics of a type: whether the angle brackets are written, the
/// parameters between them, and the `where` clause if there is one.
#[derive(Debug)]
pub struct Generics {
    pub lt_token: bool,
    pub params: Vec<GenericParam>,
    pub gt_token: bool,
    pub where_clause: Option<String>,
}

/// The mathematical value of [`Generics`].
pub ghost struct GenericsView {
    pub lt_token: bool,
    pub params: Seq<GenericParamView>,
    pub gt_token: bool,
    pub where_clause: Option<Seq<char>>,
}

impl View for Generics {
    type V = GenericsView;

    open spec fn view(&self) -> GenericsView {
        GenericsView {
            lt_token: self.lt_token,
            params: self.params.deep_view(),
            gt_token: self.gt_token,
            where_clause: self.where_clause.deep_view(),
        }
    }
}

impl DeepView for Generics {
    type V = GenericsView;

    open spec fn deep_view(&self) -> GenericsView {
        self@
    }
}

/// The options of one type parameter.
#[derive(Debug)]
pub struct TypeParamOptsInput {
    pub ident: String,
    pub bounds: Vec<String>,
    pub ignore: bool,
}

} // verus!
