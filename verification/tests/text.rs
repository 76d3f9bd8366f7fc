use convert_js::util::text::{
    char_to_ascii_lowercase, char_to_ascii_uppercase, lowercase_first, push_decimal, replace,
    str_eq, to_ascii_lowercase, to_ascii_uppercase,
};

#[test]
fn ascii_case_of_characters() {
    assert_eq!(char_to_ascii_lowercase('A'), 'a');
    assert_eq!(char_to_ascii_lowercase('Z'), 'z');
    assert_eq!(char_to_ascii_lowercase('a'), 'a');
    assert_eq!(char_to_ascii_lowercase('['), '[');
    assert_eq!(char_to_ascii_lowercase('@'), '@');
    assert_eq!(char_to_ascii_lowercase('É'), 'É');
    assert_eq!(char_to_ascii_uppercase('a'), 'A');
    assert_eq!(char_to_ascii_uppercase('z'), 'Z');
    assert_eq!(char_to_ascii_uppercase('{'), '{');
    assert_eq!(char_to_ascii_uppercase('`'), '`');
    assert_eq!(char_to_ascii_uppercase('é'), 'é');
    for c in ['a', 'Q', '0', '_', 'ß', '中'] {
        assert_eq!(char_to_ascii_lowercase(c), c.to_ascii_lowercase());
        assert_eq!(char_to_ascii_uppercase(c), c.to_ascii_uppercase());
    }
}

#[test]
fn ascii_case_of_strings() {
    assert_eq!(to_ascii_lowercase("MyValue_9É"), "myvalue_9É");
    assert_eq!(to_ascii_uppercase("MyValue_9é"), "MYVALUE_9é");
    assert_eq!(to_ascii_lowercase(""), "");
    assert_eq!(lowercase_first("MyValue"), "myValue");
    assert_eq!(lowercase_first("myValue"), "myValue");
    assert_eq!(lowercase_first("M"), "m");
    assert_eq!(lowercase_first(""), "");
}

#[test]
fn replacing_a_character() {
    assert_eq!(replace("_my__value_", '_', '-'), "-my--value-");
    assert_eq!(replace("my-value", '_', '-'), "my-value");
    assert_eq!(replace("", '_', '-'), "");
}

#[test]
fn comparing_strings() {
    assert!(str_eq("abc", "abc"));
    assert!(str_eq("", ""));
    assert!(!str_eq("abc", "abd"));
    assert!(!str_eq("abc", "ab"));
}

#[test]
fn numbers_in_decimal() {
    for n in [0usize, 7, 9, 10, 11, 99, 100, 4096, 1234567890] {
        let mut out = String::from("x");
        push_decimal(&mut out, n);
        assert_eq!(out, format!("x{}", n));
    }
}
