//! Fields, and the four shapes that a list of fields can take.

use crate::opts::ast::{Fields, FieldsView, Style};
use crate::opts::opts::{ConvertJsOptsStructData, ConvertJsOptsStructDataView};
use crate::rename::{Rename, RenameRule, RenameView};
use crate::util::outcome::{deep, lemma_deep_push, result_view};
use crate::util::present::{conflict_message, ensure_not_present};
use vstd::prelude::*;
use vstd::string::StringExecFns;

verus! {

/// A field as declared: its name if it has one, its type, and its own
/// renaming if one is given.
#[derive(Debug)]
pub struct FieldOptsInput {
    pub ident: Option<String>,
    pub ty: String,
    pub rename: Option<Rename>,
}

/// The mathematical value of a [`FieldOptsInput`].
pub ghost struct FieldOptsInputView {
    pub ident: Option<Seq<char>>,
    pub ty: Seq<char>,
    pub rename: Option<RenameView>,
}

impl View for FieldOptsInput {
    type V = FieldOptsInputView;

    open spec fn view(&self) -> FieldOptsInputView {
        FieldOptsInputView {
            ident: self.ident.deep_view(),
            ty: self.ty@,
            rename: self.rename.deep_view(),
        }
    }
}

impl DeepView for FieldOptsInput {
    type V = FieldOptsInputView;

    open spec fn deep_view(&self) -> FieldOptsInputView {
        self@
    }
}

/// A field of an object shape.
#[derive(Debug)]
pub struct NamedFieldOpts {
    pub ident: String,
    pub ty: String,
    pub rename: Option<Rename>,
}

/// The mathematical value of a [`NamedFieldOpts`].
pub ghost struct NamedFieldOptsView {
    pub ident: Seq<char>,
    pub ty: Seq<char>,
    pub rename: Option<RenameView>,
}

impl View for NamedFieldOpts {
    type V = NamedFieldOptsView;

    open spec fn view(&self) -> NamedFieldOptsView {
        NamedFieldOptsView { ident: self.ident@, ty: self.ty@, rename: self.rename.deep_view() }
    }
}

impl DeepView for NamedFieldOpts {
    type V = NamedFieldOptsView;

    open spec fn deep_view(&self) -> NamedFieldOptsView {
        self@
    }
}

impl NamedFieldOptsView {
    /// The property name under which the field appears: its own renaming
    /// first, else the inherited rule, else the name as declared.
    pub open spec fn property_name(self, rename_all: Option<RenameRule>) -> Seq<char> {
        match self.rename {
            Some(rename) => rename.field_name(self.ident),
            None => match rename_all {
                Some(rule) => rule.field_name(self.ident),
                None => self.ident,
            },
        }
    }
}

/// The name of a property is settled in four steps, the earlier before the
/// later: a renaming of the field to a name written out in full; a rule
/// given on the field; the inherited rule; the name as declared.
pub proof fn lemma_property_name_precedence(
    field: NamedFieldOptsView,
    rename_all: Option<RenameRule>,
)
    ensures
        field.rename matches Some(RenameView::Literal(name)) ==> field.property_name(rename_all)
            == name,
        field.rename matches Some(RenameView::WithRule(rule)) ==> field.property_name(rename_all)
            == rule.field_name(field.ident),
        field.rename is None ==> (rename_all matches Some(rule) ==> field.property_name(
            rename_all,
        ) == rule.field_name(field.ident)),
        field.rename is None && rename_all is None ==> field.property_name(rename_all)
            == field.ident,
{
}

impl NamedFieldOpts {
    /// The property name under which the field appears.
    pub fn as_property_name(&self, rename_all: Option<&RenameRule>) -> (r: String)
        ensures
            r@ == self@.property_name(
                match rename_all {
                    Some(rule) => Some(*rule),
                    None => None,
                },
            ),
    {
        if let Some(rename) = &self.rename {
            rename.rename_field(self.ident.as_str())
        } else if let Some(rename_all) = rename_all {
            rename_all.apply_to_field(self.ident.as_str())
        } else {
            self.ident.clone()
        }
    }
}

/// A field of a tuple shape, with its position.
#[derive(Debug)]
pub struct IndexedFieldOpts {
    pub index: usize,
    pub ty: String,
}

/// The mathematical value of an [`IndexedFieldOpts`].
pub ghost struct IndexedFieldOptsView {
    pub index: int,
    pub ty: Seq<char>,
}

impl View for IndexedFieldOpts {
    type V = IndexedFieldOptsView;

    open spec fn view(&self) -> IndexedFieldOptsView {
        IndexedFieldOptsView { index: self.index as int, ty: self.ty@ }
    }
}

impl DeepView for IndexedFieldOpts {
    type V = IndexedFieldOptsView;

    open spec fn deep_view(&self) -> IndexedFieldOptsView {
        self@
    }
}

impl Clone for IndexedFieldOpts {
    fn clone(&self) -> (r: Self)
        ensures
            r@ == self@,
    {
        IndexedFieldOpts { index: self.index, ty: self.ty.clone() }
    }
}

/// The single field of a new-type shape.
#[derive(Debug)]
pub struct NewTypeFieldOpts {
    pub ty: String,
}

/// The mathematical value of a [`NewTypeFieldOpts`].
pub ghost struct NewTypeFieldOptsView {
    pub ty: Seq<char>,
}

impl View for NewTypeFieldOpts {
    type V = NewTypeFieldOptsView;

    open spec fn view(&self) -> NewTypeFieldOptsView {
        NewTypeFieldOptsView { ty: self.ty@ }
    }
}

impl DeepView for NewTypeFieldOpts {
    type V = NewTypeFieldOptsView;

    open spec fn deep_view(&self) -> NewTypeFieldOptsView {
        self@
    }
}

/// What a single unnamed field is as the field of a new-type shape: it may
/// carry neither a name nor a renaming.
pub open spec fn new_type_field(field: FieldOptsInputView) -> Result<
    NewTypeFieldOptsView,
    Seq<char>,
> {
    if field.ident is None && field.rename is None {
        Ok(NewTypeFieldOptsView { ty: field.ty })
    } else {
        Err("field in struct in NewType style cannot be named or renamed"@)
    }
}

/// The field at position `i` as a field of an object shape.
pub open spec fn named_field(fields: Seq<FieldOptsInputView>, i: int) -> NamedFieldOptsView {
    NamedFieldOptsView { ident: fields[i].ident->0, ty: fields[i].ty, rename: fields[i].rename }
}

/// What a list of fields is as the fields of an object shape: every one of
/// them must have a name.
pub open spec fn named_fields(fields: Seq<FieldOptsInputView>) -> Result<
    Seq<NamedFieldOptsView>,
    Seq<char>,
> {
    if forall|i: int| 0 <= i < fields.len() ==> (#[trigger] fields[i]).ident is Some {
        Ok(Seq::new(fields.len(), |i: int| named_field(fields, i)))
    } else {
        Err("struct with named fields must not contain fields without identifier"@)
    }
}

/// The name of the first field that has one.
pub open spec fn first_named(fields: Seq<FieldOptsInputView>) -> Option<Seq<char>>
    decreases fields.len(),
{
    if fields.len() == 0 {
        None
    } else if fields[0].ident is Some {
        fields[0].ident
    } else {
        first_named(fields.drop_first())
    }
}

/// The field at position `i` as a field of a tuple shape.
pub open spec fn indexed_field(fields: Seq<FieldOptsInputView>, i: int) -> IndexedFieldOptsView {
    IndexedFieldOptsView { index: i, ty: fields[i].ty }
}

/// The message for a tuple shape with a field called `ident`.
pub open spec fn named_in_tuple_message(ident: Seq<char>) -> Seq<char> {
    "tuple struct must not contain named field `"@ + ident + "`"@
}

/// What a list of fields is as the fields of a tuple shape: none of them may
/// have a name, and each gets its position; a renaming is not looked at.
pub open spec fn indexed_fields(fields: Seq<FieldOptsInputView>) -> Result<
    Seq<IndexedFieldOptsView>,
    Seq<char>,
> {
    match first_named(fields) {
        Some(ident) => Err(named_in_tuple_message(ident)),
        None => Ok(Seq::new(fields.len(), |i: int| indexed_field(fields, i))),
    }
}

/// The shape of a list of fields.
///
/// - Written as a tuple: one field is a new type, or a tuple of one where
///   `new_type_as_tuple` is set; any other number of fields is a tuple, and
///   the flag is then refused.
/// - Written with names: an object, which keeps the renaming of each field
///   and the rule `rename_all`.
/// - Written as a unit: the unit shape, which holds no field.
pub open spec fn struct_shape(
    fields: FieldsView,
    new_type_as_tuple: bool,
    rename_all: Option<RenameRule>,
) -> Result<ConvertJsOptsStructDataView, Seq<char>> {
    match fields.style {
        Style::Tuple => {
            if fields.fields.len() == 1 && !new_type_as_tuple {
                match new_type_field(fields.fields[0]) {
                    Ok(field) => Ok(ConvertJsOptsStructDataView::NewType(field)),
                    Err(message) => Err(message),
                }
            } else if fields.fields.len() != 1 && new_type_as_tuple {
                Err(
                    conflict_message(
                        "new_type_as_tuple"@,
                        "tuple struct with multiple fields"@,
                    ),
                )
            } else {
                match indexed_fields(fields.fields) {
                    Ok(fields) => Ok(ConvertJsOptsStructDataView::Tuple(fields)),
                    Err(message) => Err(message),
                }
            }
        },
        Style::Struct => match named_fields(fields.fields) {
            Ok(fields) => Ok(ConvertJsOptsStructDataView::Object { fields, rename_all }),
            Err(message) => Err(message),
        },
        Style::Unit => {
            if fields.fields.len() == 0 {
                Ok(ConvertJsOptsStructDataView::Unit)
            } else {
                Err("unit struct cannot contain fields"@)
            }
        },
    }
}

/// No two fields have the same name.
pub open spec fn distinctly_named(fields: Seq<FieldOptsInputView>) -> bool {
    forall|i: int, j: int|
        0 <= i < j < fields.len() && (#[trigger] fields[i]).ident is Some && (
        #[trigger] fields[j]).ident is Some ==> fields[i].ident != fields[j].ident
}

/// Where no field before position `i` has a name and the one at `i` has,
/// it is the first that has one.
proof fn lemma_first_named_at(fields: Seq<FieldOptsInputView>, i: int)
    requires
        0 <= i < fields.len(),
        forall|j: int| 0 <= j < i ==> (#[trigger] fields[j]).ident is None,
        fields[i].ident is Some,
    ensures
        first_named(fields) == fields[i].ident,
    decreases i,
{
    if i > 0 {
        let rest = fields.drop_first();
        assert forall|j: int| 0 <= j < i - 1 implies (#[trigger] rest[j]).ident is None by {
            assert(rest[j] == fields[j + 1]);
        }
        lemma_first_named_at(rest, i - 1);
    }
}

/// Where no field has a name, there is no first one.
proof fn lemma_first_named_none(fields: Seq<FieldOptsInputView>)
    requires
        forall|j: int| 0 <= j < fields.len() ==> (#[trigger] fields[j]).ident is None,
    ensures
        first_named(fields) is None,
    decreases fields.len(),
{
    if fields.len() > 0 {
        let rest = fields.drop_first();
        assert forall|j: int| 0 <= j < rest.len() implies (#[trigger] rest[j]).ident is None by {
            assert(rest[j] == fields[j + 1]);
        }
        lemma_first_named_none(rest);
    }
}

fn check_new_type_field(field: FieldOptsInput) -> (r: Result<NewTypeFieldOpts, String>)
    ensures
        result_view(r) == new_type_field(field@),
{
    match field {
        FieldOptsInput { ident: None, ty, rename: None } => Ok(NewTypeFieldOpts { ty }),
        _ => Err(String::from_str("field in struct in NewType style cannot be named or renamed")),
    }
}

fn check_named_fields(fields: Vec<FieldOptsInput>) -> (r: Result<Vec<NamedFieldOpts>, String>)
    ensures
        result_view(r) == named_fields(fields.deep_view()),
{
    let ghost all = fields.deep_view();
    let mut named: Vec<NamedFieldOpts> = Vec::new();
    for field in it: fields
        invariant
            it.seq() == fields@,
            all == fields.deep_view(),
            forall|j: int| 0 <= j < it.index() ==> (#[trigger] all[j]).ident is Some,
            deep(named@) == Seq::new(it.index() as nat, |j: int| named_field(all, j)),
    {
        let ghost i = it.index();
        assert(all[i] == field@);
        let FieldOptsInput { ident, ty, rename } = field;
        match ident {
            Some(ident) => {
                let field = NamedFieldOpts { ident, ty, rename };
                proof {
                    lemma_deep_push(named@, field);
                    assert(Seq::new(i as nat, |j: int| named_field(all, j)).push(field@)
                        =~= Seq::new((i + 1) as nat, |j: int| named_field(all, j)));
                }
                named.push(field);
            },
            None => {
                return Err(
                    String::from_str(
                        "struct with named fields must not contain fields without identifier",
                    ),
                );
            },
        }
    }
    Ok(named)
}

fn check_indexed_fields(fields: Vec<FieldOptsInput>) -> (r: Result<Vec<IndexedFieldOpts>, String>)
    ensures
        result_view(r) == indexed_fields(fields.deep_view()),
{
    let ghost all = fields.deep_view();
    let mut indexed: Vec<IndexedFieldOpts> = Vec::new();
    for field in it: fields
        invariant
            it.seq() == fields@,
            all == fields.deep_view(),
            forall|j: int| 0 <= j < it.index() ==> (#[trigger] all[j]).ident is None,
            deep(indexed@) == Seq::new(it.index() as nat, |j: int| indexed_field(all, j)),
            indexed.len() == it.index(),
    {
        let ghost i = it.index();
        assert(all[i] == field@);
        let FieldOptsInput { ident, ty, rename: _ } = field;
        match ident {
            Some(ident) => {
                proof {
                    lemma_first_named_at(all, i);
                }
                let mut message = String::from_str("tuple struct must not contain named field `");
                message.append(ident.as_str());
                message.append("`");
                return Err(message);
            },
            None => {
                let field = IndexedFieldOpts { ty, index: indexed.len() };
                proof {
                    lemma_deep_push(indexed@, field);
                    assert(Seq::new(i as nat, |j: int| indexed_field(all, j)).push(field@)
                        =~= Seq::new((i + 1) as nat, |j: int| indexed_field(all, j)));
                }
                indexed.push(field);
            },
        }
    }
    proof {
        lemma_first_named_none(all);
    }
    Ok(indexed)
}

/// Classifies a list of fields as one of the four shapes, or says why it
/// is none of them.
pub fn check_fields(
    fields: Fields,
    new_type_as_tuple: bool,
    rename_all: Option<RenameRule>,
) -> (r: Result<ConvertJsOptsStructData, String>)
    ensures
        result_view(r) == struct_shape(fields@, new_type_as_tuple, rename_all),
        distinctly_named(fields@.fields) ==> (r matches Ok(data) ==> data@.wf()),
{
    let Fields { style, fields } = fields;
    match style {
        Style::Tuple => {
            if fields.len() == 1 {
                if new_type_as_tuple {
                    let fields = check_indexed_fields(fields)?;
                    Ok(ConvertJsOptsStructData::Tuple(fields))
                } else {
                    let mut fields = fields;
                    let field = fields.pop().unwrap();
                    let opts = check_new_type_field(field)?;
                    Ok(ConvertJsOptsStructData::NewType(opts))
                }
            } else {
                ensure_not_present(
                    &new_type_as_tuple,
                    "new_type_as_tuple",
                    "tuple struct with multiple fields",
                )?;
                let fields = check_indexed_fields(fields)?;
                Ok(ConvertJsOptsStructData::Tuple(fields))
            }
        },
        Style::Struct => {
            let fields = check_named_fields(fields)?;
            Ok(ConvertJsOptsStructData::Object { fields, rename_all })
        },
        Style::Unit => {
            if fields.len() == 0 {
                Ok(ConvertJsOptsStructData::Unit)
            } else {
                Err(String::from_str("unit struct cannot contain fields"))
            }
        },
    }
}

} // verus!
