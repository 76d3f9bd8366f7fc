use convert_js::opts::{
    ConvertJsOpts, ConvertJsOptsData, ConvertJsOptsInput, ConvertJsOptsStructData, Data,
    EnumConvertJsStyle, FieldOptsInput, Fields, Generics, Style, VariantOptsInput,
};
use convert_js::rename::RenameRule;

fn no_generics() -> Generics {
    Generics {
        lt_token: false,
        params: vec![],
        gt_token: false,
        where_clause: None,
    }
}

fn input(ident: &str, data: Data) -> ConvertJsOptsInput {
    ConvertJsOptsInput {
        ident: ident.to_string(),
        generics: no_generics(),
        data,
        rename_all: None,
        all_external: false,
        tag: None,
        content: None,
        untagged: false,
        union: false,
        new_type_as_tuple: false,
    }
}

fn fields(style: Style, names: &[Option<&str>]) -> Fields {
    Fields {
        style,
        fields: names
            .iter()
            .map(|name| FieldOptsInput {
                ident: name.map(str::to_string),
                ty: "u32".to_string(),
                rename: None,
            })
            .collect(),
    }
}

fn variant(ident: &str, fields: Fields) -> VariantOptsInput {
    VariantOptsInput {
        ident: ident.to_string(),
        discriminant: None,
        fields,
        rename: None,
        rename_all: None,
        new_type_as_tuple: false,
    }
}

#[test]
fn struct_is_checked_by_its_fields() {
    let mut input = input("Array1", Data::Struct(fields(Style::Tuple, &[None])));
    input.new_type_as_tuple = true;
    let opts = ConvertJsOpts::try_from(input).unwrap();
    assert_eq!(opts.ident, "Array1");
    match opts.data {
        ConvertJsOptsData::Struct {
            data: ConvertJsOptsStructData::Tuple(fields),
        } => assert_eq!(fields.len(), 1),
        other => panic!("{:?}", other),
    }
}

#[test]
fn struct_takes_the_rule_for_its_fields() {
    let mut input = input("MyObj", Data::Struct(fields(Style::Struct, &[Some("my_data")])));
    input.rename_all = Some(RenameRule::CamelCase);
    match ConvertJsOpts::try_from(input).unwrap().data {
        ConvertJsOptsData::Struct {
            data: ConvertJsOptsStructData::Object { rename_all, .. },
        } => assert_eq!(rename_all, Some(RenameRule::CamelCase)),
        other => panic!("{:?}", other),
    }
}

#[test]
fn enum_settings_on_a_struct_are_all_reported() {
    let mut input = input("S", Data::Struct(fields(Style::Unit, &[None])));
    input.all_external = true;
    input.content = Some("c".to_string());
    input.tag = Some("t".to_string());
    input.union = true;
    input.untagged = true;
    assert_eq!(
        ConvertJsOpts::try_from(input).unwrap_err(),
        vec![
            "`all_external` cannot be used with struct",
            "`content` cannot be used with struct",
            "`tag` cannot be used with struct",
            "`union` cannot be used with struct",
            "`untagged` cannot be used with struct",
            "unit struct cannot contain fields",
        ]
    );
}

#[test]
fn single_enum_setting_on_a_struct_is_reported() {
    let mut input = input("S", Data::Struct(fields(Style::Struct, &[Some("a")])));
    input.union = true;
    assert_eq!(
        ConvertJsOpts::try_from(input).unwrap_err(),
        vec!["`union` cannot be used with struct"]
    );
}

#[test]
fn enum_is_checked_variant_by_variant() {
    let mut input = input(
        "MyUnion",
        Data::Enum(vec![
            variant("MyNewType", fields(Style::Tuple, &[None])),
            variant("LitA", fields(Style::Unit, &[])),
            variant("ObjectA", fields(Style::Struct, &[Some("my_a")])),
        ]),
    );
    input.union = true;
    input.rename_all = Some(RenameRule::KebabCase);
    let opts = ConvertJsOpts::try_from(input).unwrap();
    match opts.data {
        ConvertJsOptsData::Enum {
            variants,
            convert_style,
            rename_all,
        } => {
            assert!(matches!(convert_style, EnumConvertJsStyle::Union));
            assert_eq!(rename_all, Some(RenameRule::KebabCase));
            assert_eq!(variants.len(), 3);
            assert_eq!(variants[0].ident, "MyNewType");
            assert!(matches!(variants[0].data, ConvertJsOptsStructData::NewType(_)));
            assert!(matches!(variants[1].data, ConvertJsOptsStructData::Unit));
            match &variants[2].data {
                ConvertJsOptsStructData::Object { rename_all, .. } => {
                    assert_eq!(*rename_all, Some(RenameRule::KebabCase))
                }
                other => panic!("{:?}", other),
            }
        }
        other => panic!("{:?}", other),
    }
}

#[test]
fn everything_wrong_with_an_enum_is_reported_together() {
    let mut with_discriminant = variant("B", fields(Style::Unit, &[]));
    with_discriminant.discriminant = Some("2".to_string());
    let mut input = input(
        "E",
        Data::Enum(vec![
            variant("A", fields(Style::Tuple, &[None, Some("x")])),
            with_discriminant,
            variant("C", fields(Style::Unit, &[])),
        ]),
    );
    input.new_type_as_tuple = true;
    input.tag = Some("type".to_string());
    input.untagged = true;
    assert_eq!(
        ConvertJsOpts::try_from(input).unwrap_err(),
        vec![
            "`new_type_as_tuple` cannot be used with enum",
            "`untagged` cannot be used with tag",
            "tuple struct must not contain named field `x`",
            "macro ToJs doesn't support enum variant `B` with discriminants",
        ]
    );
}

#[test]
fn empty_enum_passes_the_check_of_its_settings() {
    let opts = ConvertJsOpts::try_from(input("Never", Data::Enum(vec![]))).unwrap();
    match opts.data {
        ConvertJsOptsData::Enum {
            variants,
            convert_style,
            ..
        } => {
            assert!(variants.is_empty());
            assert!(matches!(convert_style, EnumConvertJsStyle::External));
        }
        other => panic!("{:?}", other),
    }
}
