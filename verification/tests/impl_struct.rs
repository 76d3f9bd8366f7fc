use convert_js::internal::JsValue;
use convert_js::opts::{
    ArrayBuilder, ConvertJsOptsStructData, ImplStruct, IndexedFieldOpts, NamedFieldOpts,
    NewTypeFieldOpts, StructCode, StructConversion,
};
use convert_js::rename::{Rename, RenameRule};
use convert_js::util::Diagnostic;
use convert_js::{Converted, Maybe, Nullable};

fn num(x: f64) -> JsValue {
    JsValue::Number(x.to_bits())
}

fn string(s: &str) -> JsValue {
    JsValue::String(s.to_string())
}

fn object(props: &[(&str, JsValue)]) -> JsValue {
    JsValue::Object(
        props
            .iter()
            .map(|(key, value)| (key.to_string(), value.clone()))
            .collect(),
    )
}

fn tuple(types: &[&str]) -> ConvertJsOptsStructData {
    ConvertJsOptsStructData::Tuple(
        types
            .iter()
            .enumerate()
            .map(|(index, ty)| IndexedFieldOpts {
                index,
                ty: ty.to_string(),
            })
            .collect(),
    )
}

fn field(ident: &str, ty: &str, rename: Option<Rename>) -> NamedFieldOpts {
    NamedFieldOpts {
        ident: ident.to_string(),
        ty: ty.to_string(),
        rename,
    }
}

fn code(data: &ConvertJsOptsStructData) -> StructCode {
    ImplStruct {
        ident: "Test",
        data,
        value_ident: None,
    }
    .impl_to_js()
    .unwrap()
}

fn convert(data: &ConvertJsOptsStructData, fields: Vec<Converted>) -> JsValue {
    code(data).conversion.convert(&fields).unwrap()
}

#[test]
fn unit_struct_has_no_conversion() {
    let errors = ImplStruct {
        ident: "Nothing",
        data: &ConvertJsOptsStructData::Unit,
        value_ident: None,
    }
    .impl_to_js()
    .unwrap_err();
    assert_eq!(
        errors,
        vec![Diagnostic {
            at: "Nothing".to_string(),
            message: "macro ToJs doesn't support unit struct currently".to_string(),
        }]
    );
    assert_eq!(
        errors[0].to_string(),
        "macro ToJs doesn't support unit struct currently"
    );
}

#[test]
fn conversion_reads_self_by_default() {
    let data = tuple(&["bool"]);
    assert_eq!(code(&data).value_ident, "self");
    let named = ImplStruct {
        ident: "Test",
        data: &data,
        value_ident: Some("__value_of_enum_variant"),
    }
    .impl_to_js()
    .unwrap();
    assert_eq!(named.value_ident, "__value_of_enum_variant");
}

#[test]
fn new_type_struct() {
    let data = ConvertJsOptsStructData::NewType(NewTypeFieldOpts {
        ty: "js_sys::Array".to_string(),
    });
    match &code(&data).conversion {
        StructConversion::NewType { ty } => assert_eq!(ty, "js_sys::Array"),
        other => panic!("{:?}", other),
    }

    let arr = JsValue::Array(vec![string("my_value")]);

    assert_eq!(arr, convert(&data, vec![Converted::of(&arr)]));
}

#[test]
fn new_type_needs_exactly_one_field() {
    let data = ConvertJsOptsStructData::NewType(NewTypeFieldOpts {
        ty: "bool".to_string(),
    });
    let conversion = code(&data).conversion;
    assert_eq!(conversion.convert(&vec![]), None);
    assert_eq!(
        conversion.convert(&vec![Converted::of(&true), Converted::of(&false)]),
        None
    );
}

#[test]
fn tuple_struct() {
    assert_eq!(convert(&tuple(&[]), vec![]), JsValue::Array(vec![]));

    assert_eq!(
        convert(&tuple(&["String"]), vec![Converted::of(&"my_str".to_string())]),
        JsValue::Array(vec![string("my_str")])
    );

    assert_eq!(
        convert(
            &tuple(&["bool", "i32"]),
            vec![Converted::of(&false), Converted::of(&num(1.0))]
        ),
        JsValue::Array(vec![JsValue::Bool(false), num(1.0)])
    );

    assert_eq!(
        convert(
            &tuple(&["bool", "i32", "Option<i32>", "Nullable<i32>", "()"]),
            vec![
                Converted::of(&true),
                Converted::of(&num(-4.0)),
                Converted::of(&None::<JsValue>),
                Converted::of(&Nullable::<JsValue>::Null),
                Converted::of(&()),
            ]
        ),
        JsValue::Array(vec![
            JsValue::Bool(true),
            num(-4.0),
            JsValue::Undefined,
            JsValue::Null,
            JsValue::Undefined
        ])
    );

    let six = [0.0, 1.0, -1.0, f64::NAN, f64::NAN, f64::NAN];
    assert_eq!(
        convert(
            &tuple(&["f64", "f64", "f64", "f64", "f64", "f64"]),
            six.iter().map(|x| Converted::of(&num(*x))).collect()
        ),
        JsValue::Array(six.iter().map(|x| num(*x)).collect())
    );
}

#[test]
fn array_builder_goes_by_the_number_of_fields() {
    let builder = |types: &[&str]| match code(&tuple(types)).conversion {
        StructConversion::Tuple { builder, items } => {
            assert_eq!(items.len(), types.len());
            for (i, item) in items.iter().enumerate() {
                assert_eq!(item.index, i);
                assert_eq!(item.ty, types[i]);
            }
            builder
        }
        other => panic!("{:?}", other),
    };
    assert_eq!(builder(&[]), ArrayBuilder::Empty);
    assert_eq!(builder(&["a"]), ArrayBuilder::Of(1));
    assert_eq!(builder(&["a", "b"]), ArrayBuilder::Of(2));
    assert_eq!(builder(&["a", "b", "c", "d", "e"]), ArrayBuilder::Of(5));
    assert_eq!(builder(&["a", "b", "c", "d", "e", "f"]), ArrayBuilder::FromIter);
    assert_eq!(ArrayBuilder::new(0), ArrayBuilder::Empty);
    assert_eq!(ArrayBuilder::new(5), ArrayBuilder::Of(5));
    assert_eq!(ArrayBuilder::new(6), ArrayBuilder::FromIter);
}

#[test]
fn tuple_reads_the_fields_at_its_positions() {
    let conversion = StructConversion::Tuple {
        builder: ArrayBuilder::Of(2),
        items: vec![
            IndexedFieldOpts {
                index: 1,
                ty: "bool".to_string(),
            },
            IndexedFieldOpts {
                index: 0,
                ty: "bool".to_string(),
            },
        ],
    };
    let fields = vec![Converted::of(&true), Converted::of(&false)];
    assert_eq!(
        conversion.convert(&fields),
        Some(JsValue::Array(vec![JsValue::Bool(false), JsValue::Bool(true)]))
    );
    assert_eq!(conversion.convert(&vec![Converted::of(&true)]), None);
}

#[test]
fn empty_struct() {
    let data = ConvertJsOptsStructData::Object {
        fields: vec![],
        rename_all: None,
    };

    let obj = convert(&data, vec![]);

    assert_eq!(obj, JsValue::Object(vec![]));
}

#[test]
fn object_single_prop() {
    let data = ConvertJsOptsStructData::Object {
        fields: vec![field("my_prop", "i32", None)],
        rename_all: None,
    };

    let js = convert(&data, vec![Converted::of(&num(1.0))]);

    match &js {
        JsValue::Object(props) => {
            assert_eq!(props.len(), 1);
            assert_eq!(props[0].0, "my_prop");
            assert_eq!(props[0].1, num(1.0));
        }
        other => panic!("{:?}", other),
    }
}

#[test]
fn object_optional_prop() {
    let position = ConvertJsOptsStructData::Object {
        fields: vec![field("x", "f64", None), field("y", "f64", None)],
        rename_all: None,
    };
    let point = ConvertJsOptsStructData::Object {
        fields: vec![
            field("label", "Option<String>", None),
            field("position", "Nullable<Position>", None),
            field("color", "Maybe<String>", None),
        ],
        rename_all: None,
    };

    {
        let inner = convert(
            &position,
            vec![Converted::of(&num(-3.2)), Converted::of(&num(7.4))],
        );
        let js = convert(
            &point,
            vec![
                Converted::of(&Some("center".to_string())),
                Converted::of(&Nullable::NonNull(inner)),
                Converted::of(&Maybe::Defined("red".to_string())),
            ],
        );

        let expect = object(&[
            ("label", string("center")),
            ("position", object(&[("x", num(-3.2)), ("y", num(7.4))])),
            ("color", string("red")),
        ]);

        assert_eq!(js, expect);
    }

    {
        let js = convert(
            &point,
            vec![
                Converted::of(&None::<String>),
                Converted::of(&Nullable::<JsValue>::Null),
                Converted::of(&Maybe::<String>::Undefined),
            ],
        );

        let expect = object(&[("position", JsValue::Null)]);

        assert_eq!(js, expect);
    }
}

#[test]
fn struct_rename() {
    let data = ConvertJsOptsStructData::Object {
        fields: vec![
            field("value", "&'static str", None),
            field("my_data", "i32", None),
            field(
                "another_data",
                "i32",
                Some(Rename::WithRule(RenameRule::PascalCase)),
            ),
            field("kind", "&'static str", Some(Rename::Literal("type".to_string()))),
        ],
        rename_all: Some(RenameRule::CamelCase),
    };

    match &code(&data).conversion {
        StructConversion::Object { props } => {
            let names: Vec<(&str, &str, &str)> = props
                .iter()
                .map(|p| (p.prop.as_str(), p.field.as_str(), p.ty.as_str()))
                .collect();
            assert_eq!(
                names,
                vec![
                    ("value", "value", "&'static str"),
                    ("myData", "my_data", "i32"),
                    ("AnotherData", "another_data", "i32"),
                    ("type", "kind", "&'static str"),
                ]
            );
        }
        other => panic!("{:?}", other),
    }

    let js = convert(
        &data,
        vec![
            Converted::of(&"my_value"),
            Converted::of(&num(1.0)),
            Converted::of(&num(0.0)),
            Converted::of(&"obj"),
        ],
    );
    let expected = object(&[
        ("value", string("my_value")),
        ("myData", num(1.0)),
        ("AnotherData", num(0.0)),
        ("type", string("obj")),
    ]);
    assert_eq!(js, expected);
}

#[test]
fn later_field_of_the_same_name_wins() {
    let data = ConvertJsOptsStructData::Object {
        fields: vec![
            field("a", "i32", None),
            field("b", "i32", Some(Rename::Literal("a".to_string()))),
            field("c", "Option<i32>", Some(Rename::Literal("a".to_string()))),
        ],
        rename_all: None,
    };
    assert_eq!(
        convert(
            &data,
            vec![
                Converted::of(&num(1.0)),
                Converted::of(&num(2.0)),
                Converted::of(&None::<JsValue>)
            ]
        ),
        object(&[("a", num(2.0))])
    );
}

#[test]
fn object_needs_a_field_for_each_property() {
    let data = ConvertJsOptsStructData::Object {
        fields: vec![field("a", "i32", None)],
        rename_all: None,
    };
    assert_eq!(code(&data).conversion.convert(&vec![]), None);
}
