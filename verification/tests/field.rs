use convert_js::opts::{
    check_fields, ConvertJsOptsStructData, FieldOptsInput, Fields, NamedFieldOpts, Style,
};
use convert_js::rename::{Rename, RenameRule};

fn unnamed(ty: &str) -> FieldOptsInput {
    FieldOptsInput {
        ident: None,
        ty: ty.to_string(),
        rename: None,
    }
}

fn named(ident: &str, ty: &str) -> FieldOptsInput {
    FieldOptsInput {
        ident: Some(ident.to_string()),
        ty: ty.to_string(),
        rename: None,
    }
}

fn tuple(fields: Vec<FieldOptsInput>) -> Fields {
    Fields {
        style: Style::Tuple,
        fields,
    }
}

fn field(ident: &str, rename: Option<Rename>) -> NamedFieldOpts {
    NamedFieldOpts {
        ident: ident.to_string(),
        ty: "i32".to_string(),
        rename,
    }
}

#[test]
fn unit_style_without_fields_is_unit() {
    let fields = Fields {
        style: Style::Unit,
        fields: vec![],
    };
    assert!(matches!(
        check_fields(fields, false, None),
        Ok(ConvertJsOptsStructData::Unit)
    ));
}

#[test]
fn unit_style_with_fields_is_refused() {
    let fields = Fields {
        style: Style::Unit,
        fields: vec![unnamed("i32")],
    };
    assert_eq!(
        check_fields(fields, false, None).unwrap_err(),
        "unit struct cannot contain fields"
    );
}

#[test]
fn single_unnamed_field_is_a_new_type() {
    match check_fields(tuple(vec![unnamed("String")]), false, None) {
        Ok(ConvertJsOptsStructData::NewType(field)) => assert_eq!(field.ty, "String"),
        other => panic!("{:?}", other),
    }
}

#[test]
fn new_type_field_cannot_be_renamed_or_named() {
    let mut renamed = unnamed("String");
    renamed.rename = Some(Rename::Literal("x".to_string()));
    assert_eq!(
        check_fields(tuple(vec![renamed]), false, None).unwrap_err(),
        "field in struct in NewType style cannot be named or renamed"
    );
    assert_eq!(
        check_fields(tuple(vec![named("a", "String")]), false, None).unwrap_err(),
        "field in struct in NewType style cannot be named or renamed"
    );
}

#[test]
fn single_unnamed_field_is_a_tuple_when_forced() {
    match check_fields(tuple(vec![unnamed("String")]), true, None) {
        Ok(ConvertJsOptsStructData::Tuple(fields)) => {
            assert_eq!(fields.len(), 1);
            assert_eq!(fields[0].index, 0);
            assert_eq!(fields[0].ty, "String");
        }
        other => panic!("{:?}", other),
    }
}

#[test]
fn tuple_fields_keep_their_positions() {
    match check_fields(
        tuple(vec![unnamed("bool"), unnamed("i32"), unnamed("f64")]),
        false,
        Some(RenameRule::CamelCase),
    ) {
        Ok(ConvertJsOptsStructData::Tuple(fields)) => {
            assert_eq!(fields.len(), 3);
            for (i, field) in fields.iter().enumerate() {
                assert_eq!(field.index, i);
            }
            assert_eq!(fields[0].ty, "bool");
            assert_eq!(fields[1].ty, "i32");
            assert_eq!(fields[2].ty, "f64");
        }
        other => panic!("{:?}", other),
    }
}

#[test]
fn empty_tuple_is_a_tuple() {
    match check_fields(tuple(vec![]), false, None) {
        Ok(ConvertJsOptsStructData::Tuple(fields)) => assert!(fields.is_empty()),
        other => panic!("{:?}", other),
    }
}

#[test]
fn forcing_a_tuple_of_several_fields_is_refused() {
    assert_eq!(
        check_fields(tuple(vec![unnamed("bool"), unnamed("i32")]), true, None).unwrap_err(),
        "`new_type_as_tuple` cannot be used with tuple struct with multiple fields"
    );
    assert_eq!(
        check_fields(tuple(vec![]), true, None).unwrap_err(),
        "`new_type_as_tuple` cannot be used with tuple struct with multiple fields"
    );
}

#[test]
fn tuple_with_a_named_field_is_refused() {
    assert_eq!(
        check_fields(
            tuple(vec![unnamed("bool"), named("first", "i32"), named("second", "i32")]),
            false,
            None
        )
        .unwrap_err(),
        "tuple struct must not contain named field `first`"
    );
    assert_eq!(
        check_fields(tuple(vec![named("only", "i32")]), true, None).unwrap_err(),
        "tuple struct must not contain named field `only`"
    );
}

#[test]
fn renaming_of_a_tuple_field_is_not_looked_at() {
    let mut renamed = unnamed("bool");
    renamed.rename = Some(Rename::Literal("x".to_string()));
    assert!(matches!(
        check_fields(tuple(vec![renamed, unnamed("i32")]), false, None),
        Ok(ConvertJsOptsStructData::Tuple(_))
    ));
}

#[test]
fn named_fields_are_an_object() {
    let mut renamed = named("kind", "&'static str");
    renamed.rename = Some(Rename::Literal("type".to_string()));
    let fields = Fields {
        style: Style::Struct,
        fields: vec![named("value", "&'static str"), renamed],
    };
    match check_fields(fields, true, Some(RenameRule::CamelCase)) {
        Ok(ConvertJsOptsStructData::Object { fields, rename_all }) => {
            assert_eq!(rename_all, Some(RenameRule::CamelCase));
            assert_eq!(fields.len(), 2);
            assert_eq!(fields[0].ident, "value");
            assert_eq!(fields[0].ty, "&'static str");
            assert_eq!(fields[0].rename, None);
            assert_eq!(fields[1].ident, "kind");
            assert_eq!(fields[1].rename, Some(Rename::Literal("type".to_string())));
        }
        other => panic!("{:?}", other),
    }
}

#[test]
fn struct_without_fields_is_an_empty_object() {
    let fields = Fields {
        style: Style::Struct,
        fields: vec![],
    };
    match check_fields(fields, false, None) {
        Ok(ConvertJsOptsStructData::Object { fields, rename_all }) => {
            assert!(fields.is_empty());
            assert_eq!(rename_all, None);
        }
        other => panic!("{:?}", other),
    }
}

#[test]
fn object_with_an_unnamed_field_is_refused() {
    let fields = Fields {
        style: Style::Struct,
        fields: vec![named("a", "i32"), unnamed("i32")],
    };
    assert_eq!(
        check_fields(fields, false, None).unwrap_err(),
        "struct with named fields must not contain fields without identifier"
    );
}

#[test]
fn property_name_is_the_declared_name_without_renaming() {
    assert_eq!(field("my_data", None).as_property_name(None), "my_data");
}

#[test]
fn property_name_follows_the_inherited_rule() {
    assert_eq!(
        field("my_data", None).as_property_name(Some(&RenameRule::CamelCase)),
        "myData"
    );
}

#[test]
fn own_rule_wins_over_the_inherited_rule() {
    let own = field("another_data", Some(Rename::WithRule(RenameRule::PascalCase)));
    assert_eq!(own.as_property_name(Some(&RenameRule::CamelCase)), "AnotherData");
    assert_eq!(own.as_property_name(None), "AnotherData");
}

#[test]
fn literal_wins_over_every_rule() {
    let literal = field("kind", Some(Rename::Literal("type".to_string())));
    assert_eq!(literal.as_property_name(Some(&RenameRule::UpperCase)), "type");
    assert_eq!(literal.as_property_name(None), "type");
}
