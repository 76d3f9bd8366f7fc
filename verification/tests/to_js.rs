use convert_js::internal::{JsObject, JsValue};
use convert_js::{Converted, FromJs, Maybe, Nullable, ToJs};

fn num(x: f64) -> JsValue {
    JsValue::Number(x.to_bits())
}

fn string(s: &str) -> JsValue {
    JsValue::String(s.to_string())
}

#[test]
fn tuple_as_js() {
    assert!(().to_js().is_undefined());

    {
        let js = (
            (),
            num(1.0),
            "2",
            num(3.0),
            Nullable::NonNull(num(4.0)),
            Maybe::Defined(false),
        )
            .to_js();

        match js {
            JsValue::Array(arr) => {
                assert_eq!(arr.len(), 6);
                assert!(arr[0].is_undefined());
                assert_eq!(arr[1], num(1.0));
                assert_eq!(arr[2], string("2"));
                assert_eq!(arr[3], num(3.0));
                assert_eq!(arr[4], num(4.0));
                assert_eq!(arr[5], JsValue::Bool(false));
            }
            other => panic!("{:?}", other),
        }
    }
}

#[test]
fn tuples_of_every_length_are_arrays() {
    let t = true;
    let items = |n: usize| JsValue::Array(vec![JsValue::Bool(true); n]);
    assert_eq!((t,).to_js(), items(1));
    assert_eq!((t, t).to_js(), items(2));
    assert_eq!((t, t, t).to_js(), items(3));
    assert_eq!((t, t, t, t).to_js(), items(4));
    assert_eq!((t, t, t, t, t).to_js(), items(5));
    assert_eq!((t, t, t, t, t, t).to_js(), items(6));
    assert_eq!((t, t, t, t, t, t, t).to_js(), items(7));
    assert_eq!((t, t, t, t, t, t, t, t).to_js(), items(8));
    assert_eq!((t, t, t, t, t, t, t, t, t).to_js(), items(9));
    assert_eq!((t, t, t, t, t, t, t, t, t, t).to_js(), items(10));
    assert_eq!(
        ("a", false, ()).to_js(),
        JsValue::Array(vec![string("a"), JsValue::Bool(false), JsValue::Undefined])
    );
    assert_eq!(("a", false).to_js_property_value(), Some(("a", false).to_js()));
}

#[test]
fn array_as_js() {
    let js = [Some(num(1.0)), None, Some(num(-1.0))].to_js();

    match js {
        JsValue::Array(arr) => {
            assert_eq!(arr.len(), 3);
            assert_eq!(arr[0], num(1.0));
            assert!(arr[1].is_undefined());
            assert_eq!(arr[2], num(-1.0));
        }
        other => panic!("{:?}", other),
    }
}

#[test]
fn vec_as_js() {
    let js = vec![
        Nullable::Null,
        Nullable::NonNull(Box::new("1")),
        Nullable::NonNull(Box::new("2")),
    ]
    .to_js();

    match js {
        JsValue::Array(arr) => {
            assert_eq!(arr.len(), 3);
            assert!(arr[0].is_null());
            assert_eq!(arr[1], string("1"));
            assert_eq!(arr[2], string("2"));
        }
        other => panic!("{:?}", other),
    }
}

#[test]
fn slice_as_js() {
    let values = [true, false, true, true, false];
    let slice = &values[..];

    let js = slice.to_js();

    match js {
        JsValue::Array(arr) => {
            assert_eq!(arr.len(), 5);
            assert_eq!(arr[0], JsValue::Bool(true));
            assert_eq!(arr[1], JsValue::Bool(false));
            assert_eq!(arr[2], JsValue::Bool(true));
            assert_eq!(arr[3], JsValue::Bool(true));
            assert_eq!(arr[4], JsValue::Bool(false));
        }
        other => panic!("{:?}", other),
    }
}

#[test]
fn scalars_convert_as_themselves() {
    assert_eq!(true.to_js(), JsValue::Bool(true));
    assert_eq!("a".to_js(), string("a"));
    assert_eq!("a".to_string().to_js(), string("a"));
    assert_eq!((&true).to_js(), JsValue::Bool(true));
    assert_eq!(Box::new(false).to_js(), JsValue::Bool(false));
    assert_eq!(num(2.5).to_js(), num(2.5));
    assert_eq!(JsValue::from_str("x"), string("x"));
    assert_eq!(true.to_js_property_value(), Some(JsValue::Bool(true)));
    assert_eq!(().to_js_property_value(), Some(JsValue::Undefined));
    assert_eq!(Vec::<bool>::new().to_js(), JsValue::Array(vec![]));
}

#[test]
fn dynamic_value_is_copied_part_by_part() {
    let value = JsValue::Object(vec![
        (
            "items".to_string(),
            JsValue::Array(vec![num(1.0), JsValue::Null, string("s")]),
        ),
        (
            "inner".to_string(),
            JsValue::Object(vec![("b".to_string(), JsValue::Bool(true))]),
        ),
        ("u".to_string(), JsValue::Undefined),
    ]);
    assert_eq!(value.clone(), value);
    assert_eq!(value.to_js(), value);
}

#[test]
fn absent_option_is_undefined_and_leaves_the_property_unset() {
    assert_eq!(None::<bool>.to_js(), JsValue::Undefined);
    assert_eq!(None::<bool>.to_js_property_value(), None);
    assert_eq!(Some(true).to_js(), JsValue::Bool(true));
    assert_eq!(Some(true).to_js_property_value(), Some(JsValue::Bool(true)));
}

#[test]
fn null_is_null_by_itself_and_as_a_property() {
    assert_eq!(Nullable::<bool>::Null.to_js(), JsValue::Null);
    assert_eq!(Nullable::<bool>::Null.to_js_property_value(), Some(JsValue::Null));
    assert_eq!(Nullable::NonNull(true).to_js(), JsValue::Bool(true));
    assert_eq!(
        Nullable::NonNull(true).to_js_property_value(),
        Some(JsValue::Bool(true))
    );
    assert_eq!(
        Nullable::NonNull(None::<bool>).to_js_property_value(),
        Some(JsValue::Undefined)
    );

    let object = JsObject::new().with_prop("position", &Nullable::<bool>::Null);
    assert_eq!(
        object.into_inner(),
        vec![("position".to_string(), JsValue::Null)]
    );
}

#[test]
fn undefined_is_undefined_by_itself_and_unset_as_a_property() {
    assert_eq!(Maybe::<bool>::Undefined.to_js(), JsValue::Undefined);
    assert_eq!(Maybe::<bool>::Undefined.to_js_property_value(), None);
    assert_eq!(Maybe::Defined(true).to_js(), JsValue::Bool(true));
    assert_eq!(
        Maybe::Defined(true).to_js_property_value(),
        Some(JsValue::Bool(true))
    );

    let object = JsObject::new().with_prop("color", &Maybe::<bool>::Undefined);
    assert_eq!(object.into_inner(), vec![]);
}

#[test]
fn option_likes_and_options() {
    assert_eq!(Nullable::from_option(Some(1)), Nullable::NonNull(1));
    assert_eq!(Nullable::from_option(None::<i32>), Nullable::Null);
    assert_eq!(Nullable::NonNull(1).into_option(), Some(1));
    assert_eq!(Nullable::<i32>::Null.into_option(), None);
    assert_eq!(Nullable::NonNull(1).as_ref(), Nullable::NonNull(&1));
    assert_eq!(Nullable::<i32>::default(), Nullable::Null);
    assert_eq!(Nullable::from(Some(2)), Nullable::NonNull(2));
    assert_eq!(Nullable::NonNull("a".to_string()).clone(), Nullable::NonNull("a".to_string()));

    assert_eq!(Maybe::from_option(Some(1)), Maybe::Defined(1));
    assert_eq!(Maybe::from_option(None::<i32>), Maybe::Undefined);
    assert_eq!(Maybe::Defined(1).into_option(), Some(1));
    assert_eq!(Maybe::<i32>::Undefined.into_option(), None);
    assert_eq!(Maybe::Defined(1).as_ref(), Maybe::Defined(&1));
    assert_eq!(Maybe::<i32>::default(), Maybe::Undefined);
    assert_eq!(Maybe::from(None::<i32>), Maybe::Undefined);
    assert_eq!(Maybe::Defined("a".to_string()).clone(), Maybe::Defined("a".to_string()));
}

#[test]
fn both_conversions_of_a_value() {
    let some = Converted::of(&Some(true));
    assert_eq!(some.value, JsValue::Bool(true));
    assert_eq!(some.property, Some(JsValue::Bool(true)));
    let none = Converted::of(&Maybe::<bool>::Undefined);
    assert_eq!(none.value, JsValue::Undefined);
    assert_eq!(none.property, None);
}

#[test]
fn object_keeps_each_key_once() {
    let mut object = JsObject::new();
    object.set_prop("a", &true);
    object.set_prop("b", &"x");
    object.set_prop("a", &false);
    object.set_prop("c", &None::<bool>);
    object.set_prop("b", &None::<bool>);
    let object = object.with("d", JsValue::Null).with("a", num(1.0));
    assert_eq!(
        object.into_js_value(),
        JsValue::Object(vec![
            ("a".to_string(), num(1.0)),
            ("b".to_string(), string("x")),
            ("d".to_string(), JsValue::Null),
        ])
    );
    assert_eq!(JsObject::new().into_js_value(), JsValue::Object(vec![]));
}

#[test]
fn values_are_read_back() {
    assert_eq!(JsValue::from_js(num(1.0)), Ok(num(1.0)));

    assert_eq!(<()>::from_js(JsValue::Undefined), Ok(()));
    assert_eq!(<()>::from_js(JsValue::Null), Err(JsValue::Null));

    assert_eq!(Option::<JsValue>::from_js(JsValue::Undefined), Ok(None));
    assert_eq!(Option::<JsValue>::from_js(JsValue::Null), Ok(None));
    assert_eq!(Option::<JsValue>::from_js(string("a")), Ok(Some(string("a"))));
    assert_eq!(Option::<()>::from_js(string("a")), Err(string("a")));

    assert_eq!(Nullable::<JsValue>::from_js(JsValue::Null), Ok(Nullable::Null));
    assert_eq!(
        Nullable::<JsValue>::from_js(JsValue::Undefined),
        Ok(Nullable::NonNull(JsValue::Undefined))
    );
    assert_eq!(Nullable::<()>::from_js(string("a")), Err(string("a")));

    assert_eq!(Maybe::<JsValue>::from_js(JsValue::Undefined), Ok(Maybe::Undefined));
    assert_eq!(
        Maybe::<JsValue>::from_js(JsValue::Null),
        Ok(Maybe::Defined(JsValue::Null))
    );
    assert_eq!(Maybe::<()>::from_js(JsValue::Null), Err(JsValue::Null));
}
