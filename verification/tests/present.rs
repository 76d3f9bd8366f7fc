use convert_js::util::{ensure_not_present, IsPresent};

#[test]
fn options_and_flags_are_present_when_given() {
    assert!(Some(1).is_present());
    assert!(!None::<i32>.is_present());
    assert!(true.is_present());
    assert!(!false.is_present());
}

#[test]
fn absent_setting_is_accepted() {
    assert_eq!(ensure_not_present(&None::<String>, "tag", "all_external"), Ok(()));
    assert_eq!(ensure_not_present(&false, "union", "tag"), Ok(()));
}

#[test]
fn present_setting_is_refused_with_both_names() {
    assert_eq!(
        ensure_not_present(&Some("t".to_string()), "tag", "all_external"),
        Err("`tag` cannot be used with all_external".to_string())
    );
    assert_eq!(
        ensure_not_present(&true, "new_type_as_tuple", "tuple struct with multiple fields"),
        Err("`new_type_as_tuple` cannot be used with tuple struct with multiple fields".to_string())
    );
}
