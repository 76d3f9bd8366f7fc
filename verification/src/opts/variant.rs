//! The variants of an enum.

use crate::opts::ast::{Fields, FieldsView};
use crate::opts::field::{check_fields, distinctly_named, struct_shape};
use crate::opts::opts::{ConvertJsOptsStructData, ConvertJsOptsStructDataView};
use crate::rename::{Rename, RenameRule, RenameView};
use crate::util::outcome::result_view;
use vstd::prelude::*;
use vstd::string::StringExecFns;

verus! {

/// A variant as declared.
#[derive(Debug)]
pub struct VariantOptsInput {
    pub ident: String,
    /// The text of the explicit discriminant, where one is written.
    pub discriminant: Option<String>,
    pub fields: Fields,
    pub rename: Option<Rename>,
    /// The rule for the fields of this variant, where its content is an object.
    pub rename_all: Option<RenameRule>,
    /// Whether a single unnamed field is converted as a tuple of one.
    pub new_type_as_tuple: bool,
}

/// The mathematical value of a [`VariantOptsInput`].
pub ghost struct VariantOptsInputView {
    pub ident: Seq<char>,
    pub discriminant: Option<Seq<char>>,
    pub fields: FieldsView,
    pub rename: Option<RenameView>,
    pub rename_all: Option<RenameRule>,
    pub new_type_as_tuple: bool,
}

impl View for VariantOptsInput {
    type V = VariantOptsInputView;

    open spec fn view(&self) -> VariantOptsInputView {
        VariantOptsInputView {
            ident: self.ident@,
            discriminant: self.discriminant.deep_view(),
            fields: self.fields@,
            rename: self.rename.deep_view(),
            rename_all: self.rename_all,
            new_type_as_tuple: self.new_type_as_tuple,
        }
    }
}

impl DeepView for VariantOptsInput {
    type V = VariantOptsInputView;

    open spec fn deep_view(&self) -> VariantOptsInputView {
        self@
    }
}

/// A checked variant: its name, the shape of its content, and its own
/// renaming if one is given.
#[derive(Debug)]
pub struct VariantOpts {
    pub ident: String,
    pub data: ConvertJsOptsStructData,
    pub rename: Option<Rename>,
}

/// The mathematical value of a [`VariantOpts`].
pub ghost struct VariantOptsView {
    pub ident: Seq<char>,
    pub data: ConvertJsOptsStructDataView,
    pub rename: Option<RenameView>,
}

impl View for VariantOpts {
    type V = VariantOptsView;

    open spec fn view(&self) -> VariantOptsView {
        VariantOptsView { ident: self.ident@, data: self.data@, rename: self.rename.deep_view() }
    }
}

impl DeepView for VariantOpts {
    type V = VariantOptsView;

    open spec fn deep_view(&self) -> VariantOptsView {
        self@
    }
}

/// The message for a variant called `ident` that has a discriminant.
pub open spec fn discriminant_message(ident: Seq<char>) -> Seq<char> {
    "macro ToJs doesn't support enum variant `"@ + ident + "` with discriminants"@
}

/// The rule that is in force where `own` is given on the spot and
/// `inherited` comes from outside: the own one wherever there is one.
pub open spec fn rule_in_force(own: Option<RenameRule>, inherited: Option<RenameRule>) -> Option<
    RenameRule,
> {
    match own {
        Some(rule) => Some(rule),
        None => inherited,
    }
}

impl ConvertJsOptsStructDataView {
    /// The shape with the rule `inherited` taken over: an object without a
    /// rule of its own gets it, anything else stays as it is.
    pub open spec fn inherit(self, inherited: Option<RenameRule>) -> Self {
        match self {
            ConvertJsOptsStructDataView::Object {
                fields,
                rename_all,
            } => ConvertJsOptsStructDataView::Object {
                fields,
                rename_all: rule_in_force(rename_all, inherited),
            },
            other => other,
        }
    }
}

impl VariantOptsInputView {
    /// The variant by its own settings alone: refused where it has a
    /// discriminant, else the shape of its fields under its own flag and rule.
    pub open spec fn checked_alone(self) -> Result<VariantOptsView, Seq<char>> {
        if self.discriminant is Some {
            Err(discriminant_message(self.ident))
        } else {
            match struct_shape(self.fields, self.new_type_as_tuple, self.rename_all) {
                Ok(data) => Ok(VariantOptsView { ident: self.ident, data, rename: self.rename }),
                Err(message) => Err(message),
            }
        }
    }

    /// The variant inside an enum whose rule is `inherited`.
    pub open spec fn checked(self, inherited: Option<RenameRule>) -> Result<
        VariantOptsView,
        Seq<char>,
    > {
        match self.checked_alone() {
            Ok(variant) => Ok(
                VariantOptsView {
                    ident: variant.ident,
                    data: variant.data.inherit(inherited),
                    rename: variant.rename,
                },
            ),
            Err(message) => Err(message),
        }
    }
}

/// The fields of a variant that is an object are renamed by the rule of
/// the variant where it has one, and by that of the enum where it has none.
/// Any other shape is what the variant gives by itself.
pub proof fn lemma_variant_rule_precedence(
    input: VariantOptsInputView,
    inherited: Option<RenameRule>,
)
    requires
        input.checked(inherited) is Ok,
    ensures
        input.checked_alone() is Ok,
        input.checked(inherited)->Ok_0.ident == input.ident,
        input.checked(inherited)->Ok_0.rename == input.rename,
        input.checked(inherited)->Ok_0.data matches ConvertJsOptsStructDataView::Object {
            fields,
            rename_all,
        } ==> {
            &&& input.checked_alone()->Ok_0.data is Object
            &&& fields == input.checked_alone()->Ok_0.data->Object_fields
            &&& input.rename_all is Some ==> rename_all == input.rename_all
            &&& input.rename_all is None ==> rename_all == inherited
        },
        !(input.checked(inherited)->Ok_0.data is Object) ==> input.checked(inherited)
            == input.checked_alone(),
{
}

impl VariantOpts {
    /// Checks a variant of an enum whose own rule for fields is
    /// `inherited_rename_all`: the rule of the variant wins over it.
    pub fn try_from_input(input: VariantOptsInput, inherited_rename_all: Option<RenameRule>) -> (r:
        Result<Self, String>)
        ensures
            result_view(r) == input@.checked(inherited_rename_all),
            distinctly_named(input@.fields.fields) ==> (r matches Ok(variant)
                ==> variant@.data.wf()),
    {
        let VariantOpts { ident, data, rename } = VariantOpts::try_from(input)?;
        let data = match data {
            ConvertJsOptsStructData::Object { fields, rename_all } => {
                let rename_all = match rename_all {
                    Some(rule) => Some(rule),
                    None => inherited_rename_all,
                };
                ConvertJsOptsStructData::Object { fields, rename_all }
            },
            other => other,
        };

        Ok(VariantOpts { ident, data, rename })
    }

    /// Checks a variant by its own settings alone.
    pub fn try_from(value: VariantOptsInput) -> (r: Result<Self, String>)
        ensures
            result_view(r) == value@.checked_alone(),
            distinctly_named(value@.fields.fields) ==> (r matches Ok(variant)
                ==> variant@.data.wf()),
    {
        let VariantOptsInput { ident, discriminant, fields, rename, new_type_as_tuple, rename_all } =
            value;

        if discriminant.is_some() {
            let mut message = String::from_str("macro ToJs doesn't support enum variant `");
            message.append(ident.as_str());
            message.append("` with discriminants");
            Err(message)
        } else {
            Ok(VariantOpts { ident, data: check_fields(fields, new_type_as_tuple, rename_all)?, rename })
        }
    }
}

} // verus!
