//! The options of a derivation: what is declared, how it is checked, and
//! what conversion it yields.

pub mod ast;
pub mod code;
pub mod enum_style;
pub mod field;
pub mod impl_enum;
pub mod impl_struct;
pub mod opts;
pub mod variant;

pub use ast::{
    Data, DataView, Fields, FieldsView, GenericParam, GenericParamView, Generics, GenericsView,
    Style, TypeParamOptsInput,
};
pub use code::{
    ArmCode, ArmCodeView, ArmPattern, ArmPatternView, ArrayBuilder, EnumCode, EnumCodeView,
    FieldBinding, FieldBindingView, PropCode, PropCodeView, StructConversion,
    StructConversionView, VariantConversion, VariantConversionView,
};
pub use enum_style::{
    EnumConvertJsStyle, EnumConvertJsStyleInput, EnumConvertJsStyleInputView,
    EnumConvertJsStyleView,
};
pub use field::{
    check_fields, FieldOptsInput, FieldOptsInputView, IndexedFieldOpts, IndexedFieldOptsView,
    NamedFieldOpts, NamedFieldOptsView, NewTypeFieldOpts, NewTypeFieldOptsView,
};
pub use impl_enum::{ImplEnum, ImplEnumView};
pub use impl_struct::{ImplStruct, StructCode, StructCodeView};
pub use opts::{
    ConvertJsOpts, ConvertJsOptsData, ConvertJsOptsDataView, ConvertJsOptsInput,
    ConvertJsOptsInputView, ConvertJsOptsStructData, ConvertJsOptsStructDataView,
    ConvertJsOptsView,
};
pub use variant::{VariantOpts, VariantOptsInput, VariantOptsInputView, VariantOptsView};
