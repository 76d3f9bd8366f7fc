//! A new name for one field or variant.

use crate::rename::rule::RenameRule;
use vstd::prelude::*;

verus! {

/// How one field or variant is renamed: by a casing rule, or to a name
/// written out in full.
#[derive(Debug, PartialEq, Eq)]
pub enum Rename {
    WithRule(RenameRule),
    Literal(String),
}

/// The mathematical value of a [`Rename`].
pub ghost enum RenameView {
    WithRule(RenameRule),
    Literal(Seq<char>),
}

impl View for Rename {
    type V = RenameView;

    open spec fn view(&self) -> RenameView {
        match self {
            Rename::WithRule(rule) => RenameView::WithRule(*rule),
            Rename::Literal(name) => RenameView::Literal(name@),
        }
    }
}

impl Clone for Rename {
    fn clone(&self) -> (r: Self)
        ensures
            r@ == self@,
    {
        match self {
            Rename::WithRule(rule) => Rename::WithRule(*rule),
            Rename::Literal(name) => Rename::Literal(name.clone()),
        }
    }
}

impl DeepView for Rename {
    type V = RenameView;

    open spec fn deep_view(&self) -> RenameView {
        self@
    }
}

impl RenameView {
    /// The new name of a field written as `field_name`.
    pub open spec fn field_name(self, field_name: Seq<char>) -> Seq<char> {
        match self {
            RenameView::WithRule(rule) => rule.field_name(field_name),
            RenameView::Literal(name) => name,
        }
    }

    /// The new name of a variant written as `variant_name`.
    pub open spec fn variant_name(self, variant_name: Seq<char>) -> Seq<char> {
        match self {
            RenameView::WithRule(rule) => rule.variant_name(variant_name),
            RenameView::Literal(name) => name,
        }
    }
}

impl Rename {
    /// The renaming to the name `value`, written out in full.
    pub fn from_string(value: &str) -> (r: Result<Rename, String>)
        ensures
            r matches Ok(rename) && rename@ == RenameView::Literal(value@),
    {
        Ok(Rename::Literal(value.to_owned()))
    }

    /// The new name of a field: the rule applied to its name, or the literal.
    pub fn rename_field(&self, field_name: &str) -> (r: String)
        ensures
            r@ == self@.field_name(field_name@),
    {
        match self {
            Rename::WithRule(rule) => rule.apply_to_field(field_name),
            Rename::Literal(name) => name.clone(),
        }
    }

    /// The new name of a variant: the rule applied to its name, or the literal.
    pub fn rename_variant(&self, variant_name: &str) -> (r: String)
        ensures
            r@ == self@.variant_name(variant_name@),
    {
        match self {
            Rename::WithRule(rule) => rule.apply_to_variant(variant_name),
            Rename::Literal(name) => name.clone(),
        }
    }
}

} // verus!
