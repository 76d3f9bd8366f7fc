use convert_js::opts::{
    ConvertJsOptsStructData, FieldOptsInput, Fields, Style, VariantOpts, VariantOptsInput,
};
use convert_js::rename::{Rename, RenameRule};

fn fields(style: Style, names: &[Option<&str>]) -> Fields {
    Fields {
        style,
        fields: names
            .iter()
            .map(|name| FieldOptsInput {
                ident: name.map(str::to_string),
                ty: "u32".to_string(),
                rename: None,
            })
            .collect(),
    }
}

fn variant(ident: &str, fields: Fields) -> VariantOptsInput {
    VariantOptsInput {
        ident: ident.to_string(),
        discriminant: None,
        fields,
        rename: None,
        rename_all: None,
        new_type_as_tuple: false,
    }
}

fn object_rule(variant: &VariantOpts) -> Option<RenameRule> {
    match &variant.data {
        ConvertJsOptsStructData::Object { rename_all, .. } => *rename_all,
        other => panic!("{:?}", other),
    }
}

#[test]
fn variant_with_discriminant_is_refused() {
    let mut input = variant("A", fields(Style::Unit, &[]));
    input.discriminant = Some("1".to_string());
    assert_eq!(
        VariantOpts::try_from_input(input, None).unwrap_err(),
        "macro ToJs doesn't support enum variant `A` with discriminants"
    );
    let mut input = variant("Broken", fields(Style::Unit, &[None]));
    input.discriminant = Some("1 + 1".to_string());
    assert_eq!(
        VariantOpts::try_from(input).unwrap_err(),
        "macro ToJs doesn't support enum variant `Broken` with discriminants"
    );
}

#[test]
fn variant_keeps_its_name_and_renaming() {
    let mut input = variant("LitB", fields(Style::Unit, &[]));
    input.rename = Some(Rename::Literal("b".to_string()));
    let checked = VariantOpts::try_from_input(input, Some(RenameRule::KebabCase)).unwrap();
    assert_eq!(checked.ident, "LitB");
    assert_eq!(checked.rename, Some(Rename::Literal("b".to_string())));
    assert!(matches!(checked.data, ConvertJsOptsStructData::Unit));
}

#[test]
fn object_variant_inherits_the_rule_of_the_enum() {
    let input = variant("ObjectA", fields(Style::Struct, &[Some("my_a"), Some("my_b")]));
    let checked = VariantOpts::try_from_input(input, Some(RenameRule::KebabCase)).unwrap();
    assert_eq!(object_rule(&checked), Some(RenameRule::KebabCase));
}

#[test]
fn own_rule_of_a_variant_wins_over_the_enum() {
    let mut input = variant("ObjectB", fields(Style::Struct, &[Some("my_a"), Some("my_b")]));
    input.rename_all = Some(RenameRule::CamelCase);
    let checked = VariantOpts::try_from_input(input, Some(RenameRule::KebabCase)).unwrap();
    assert_eq!(object_rule(&checked), Some(RenameRule::CamelCase));
}

#[test]
fn object_variant_without_any_rule_has_none() {
    let input = variant("ObjectA", fields(Style::Struct, &[Some("my_a")]));
    let checked = VariantOpts::try_from_input(input, None).unwrap();
    assert_eq!(object_rule(&checked), None);
}

#[test]
fn variant_alone_does_not_inherit() {
    let input = variant("ObjectA", fields(Style::Struct, &[Some("my_a")]));
    let checked = VariantOpts::try_from(input).unwrap();
    assert_eq!(object_rule(&checked), None);
}

#[test]
fn variant_uses_its_own_tuple_flag() {
    let mut input = variant("UnaryTuple", fields(Style::Tuple, &[None]));
    input.new_type_as_tuple = true;
    let checked = VariantOpts::try_from_input(input, Some(RenameRule::KebabCase)).unwrap();
    match checked.data {
        ConvertJsOptsStructData::Tuple(fields) => assert_eq!(fields.len(), 1),
        other => panic!("{:?}", other),
    }
    let input = variant("MyNewType", fields(Style::Tuple, &[None]));
    let checked = VariantOpts::try_from_input(input, Some(RenameRule::KebabCase)).unwrap();
    assert!(matches!(checked.data, ConvertJsOptsStructData::NewType(_)));
}

#[test]
fn shape_error_of_a_variant_is_reported() {
    let input = variant("Mixed", fields(Style::Tuple, &[None, Some("named")]));
    assert_eq!(
        VariantOpts::try_from_input(input, None).unwrap_err(),
        "tuple struct must not contain named field `named`"
    );
}
