//! The styles in which an enum is converted, and how one is chosen.

use crate::util::outcome::result_view;
use crate::util::present::{conflict_message, ensure_not_present};
use vstd::prelude::*;

verus! {

/// How the variants of an enum are told apart in what they are converted to.
///
/// The examples are for
///
/// ```text
/// enum MyEnum {
///     VariantNewType(String),
///     VariantTuple(f64, bool),
///     VariantStruct { field1: Option<usize>, field2: Maybe<usize>, field3: Nullable<usize> },
///     VariantUnit,
/// }
/// ```
#[derive(Debug)]
pub enum EnumConvertJsStyle {
    /// The default.
    ///
    /// A unit variant is the string of its name; any other variant is
    /// `{ [variantName]: variantContent }`.
    ///
    /// ```text
    /// | { VariantNewType: string }
    /// | { VariantTuple: [number, boolean] }
    /// | { VariantStruct: { field1?: number, field2?: number, field3: number | null } }
    /// | "VariantUnit"
    /// ```
    External,
    /// `all_external`
    ///
    /// As [`External`](Self::External), but a unit variant is
    /// `{ [variantName]: undefined }`.
    ///
    /// ```text
    /// | { VariantNewType: string }
    /// | { VariantTuple: [number, boolean] }
    /// | { VariantStruct: { field1?: number, field2?: number, field3: number | null } }
    /// | { VariantUnit: undefined }
    /// ```
    AllExternal,
    /// `tag = "type"`
    ///
    /// The name of the variant is a property among those of its content.
    /// New-type and tuple variants have no properties and are not allowed.
    ///
    /// ```text
    /// | { type: "VariantStruct", field1?: number, field2?: number, field3: number | null }
    /// | { type: "VariantUnit" }
    /// ```
    Internal { tag: String },
    /// `tag = "t", content = "c"`
    ///
    /// ```text
    /// | { t: "VariantNewType", c: string }
    /// | { t: "VariantTuple", c: [number, boolean] }
    /// | { t: "VariantStruct", c: { field1?: number, field2?: number, field3: number | null } }
    /// | { t: "VariantUnit" }
    /// ```
    Adjacent { tag: String, content: String },
    /// `untagged`
    ///
    /// The content alone. A unit variant is `undefined`, so an enum may have
    /// one at most.
    ///
    /// ```text
    /// | string
    /// | [number, boolean]
    /// | { field1?: number, field2?: number, field3: number | null }
    /// | undefined
    /// ```
    Untagged,
    /// `union`
    ///
    /// As [`Untagged`](Self::Untagged), but a unit variant is the string of
    /// its name, so an enum may have several.
    ///
    /// ```text
    /// | string
    /// | [number, boolean]
    /// | { field1?: number, field2?: number, field3: number | null }
    /// | "VariantUnit"
    /// ```
    Union,
}

/// The mathematical value of an [`EnumConvertJsStyle`].
pub ghost enum EnumConvertJsStyleView {
    External,
    AllExternal,
    Internal { tag: Seq<char> },
    Adjacent { tag: Seq<char>, content: Seq<char> },
    Untagged,
    Union,
}

impl View for EnumConvertJsStyle {
    type V = EnumConvertJsStyleView;

    open spec fn view(&self) -> EnumConvertJsStyleView {
        match self {
            EnumConvertJsStyle::External => EnumConvertJsStyleView::External,
            EnumConvertJsStyle::AllExternal => EnumConvertJsStyleView::AllExternal,
            EnumConvertJsStyle::Internal { tag } => EnumConvertJsStyleView::Internal { tag: tag@ },
            EnumConvertJsStyle::Adjacent { tag, content } => EnumConvertJsStyleView::Adjacent {
                tag: tag@,
                content: content@,
            },
            EnumConvertJsStyle::Untagged => EnumConvertJsStyleView::Untagged,
            EnumConvertJsStyle::Union => EnumConvertJsStyleView::Union,
        }
    }
}

impl DeepView for EnumConvertJsStyle {
    type V = EnumConvertJsStyleView;

    open spec fn deep_view(&self) -> EnumConvertJsStyleView {
        self@
    }
}

/// The five settings of an enum that choose its style.
#[derive(Debug)]
pub struct EnumConvertJsStyleInput {
    pub all_external: bool,
    pub tag: Option<String>,
    pub content: Option<String>,
    pub untagged: bool,
    pub union: bool,
}

/// The mathematical value of an [`EnumConvertJsStyleInput`].
pub ghost struct EnumConvertJsStyleInputView {
    pub all_external: bool,
    pub tag: Option<Seq<char>>,
    pub content: Option<Seq<char>>,
    pub untagged: bool,
    pub union: bool,
}

impl View for EnumConvertJsStyleInput {
    type V = EnumConvertJsStyleInputView;

    open spec fn view(&self) -> EnumConvertJsStyleInputView {
        EnumConvertJsStyleInputView {
            all_external: self.all_external,
            tag: self.tag.deep_view(),
            content: self.content.deep_view(),
            untagged: self.untagged,
            union: self.union,
        }
    }
}

impl DeepView for EnumConvertJsStyleInput {
    type V = EnumConvertJsStyleInputView;

    open spec fn deep_view(&self) -> EnumConvertJsStyleInputView {
        self@
    }
}

impl EnumConvertJsStyleInputView {
    /// The style that the settings choose, or the first pair among them that
    /// cannot stand together.
    ///
    /// `all_external` comes first and excludes `tag`, `content`, `union` and
    /// `untagged`, which are looked at in this order. Then `tag`, which
    /// excludes `union` and `untagged` and is adjacent with `content` and
    /// internal without. Then `union`, which excludes `untagged`. Then
    /// `untagged`. With none of them the style is external.
    pub open spec fn style(self) -> Result<EnumConvertJsStyleView, Seq<char>> {
        if self.all_external {
            if self.tag is Some {
                Err(conflict_message("tag"@, "all_external"@))
            } else if self.content is Some {
                Err(conflict_message("content"@, "all_external"@))
            } else if self.union {
                Err(conflict_message("union"@, "all_external"@))
            } else if self.untagged {
                Err(conflict_message("untagged"@, "all_external"@))
            } else {
                Ok(EnumConvertJsStyleView::AllExternal)
            }
        } else if let Some(tag) = self.tag {
            if self.union {
                Err(conflict_message("union"@, "tag"@))
            } else if self.untagged {
                Err(conflict_message("untagged"@, "tag"@))
            } else if let Some(content) = self.content {
                Ok(EnumConvertJsStyleView::Adjacent { tag, content })
            } else {
                Ok(EnumConvertJsStyleView::Internal { tag })
            }
        } else if self.union {
            if self.untagged {
                Err(conflict_message("untagged"@, "union"@))
            } else {
                Ok(EnumConvertJsStyleView::Union)
            }
        } else if self.untagged {
            Ok(EnumConvertJsStyleView::Untagged)
        } else {
            Ok(EnumConvertJsStyleView::External)
        }
    }
}

impl EnumConvertJsStyle {
    /// Chooses the style from the settings of the enum.
    pub fn try_from(value: EnumConvertJsStyleInput) -> (r: Result<Self, String>)
        ensures
            result_view(r) == value@.style(),
    {
        let EnumConvertJsStyleInput { all_external, tag, content, union, untagged } = value;

        if all_external {
            ensure_not_present(&tag, "tag", "all_external")?;
            ensure_not_present(&content, "content", "all_external")?;
            ensure_not_present(&union, "union", "all_external")?;
            ensure_not_present(&untagged, "untagged", "all_external")?;

            Ok(EnumConvertJsStyle::AllExternal)
        } else if let Some(tag) = tag {
            ensure_not_present(&union, "union", "tag")?;
            ensure_not_present(&untagged, "untagged", "tag")?;

            if let Some(content) = content {
                Ok(EnumConvertJsStyle::Adjacent { tag, content })
            } else {
                Ok(EnumConvertJsStyle::Internal { tag })
            }
        } else if union {
            ensure_not_present(&untagged, "untagged", "union")?;
            Ok(EnumConvertJsStyle::Union)
        } else if untagged {
            Ok(EnumConvertJsStyle::Untagged)
        } else {
            Ok(EnumConvertJsStyle::External)
        }
    }
}

} // verus!
