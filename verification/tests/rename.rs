use convert_js::opts::FieldOptsInput;
use convert_js::rename::{Rename, RenameRule};

const RULES: [RenameRule; 8] = [
    RenameRule::LowerCase,
    RenameRule::UpperCase,
    RenameRule::PascalCase,
    RenameRule::CamelCase,
    RenameRule::SnakeCase,
    RenameRule::ScreamingSnakeCase,
    RenameRule::KebabCase,
    RenameRule::ScreamingKebabCase,
];

#[test]
fn test_rename_rule() {
    let rename_all = RenameRule::from_string("UPPERCASE").unwrap();

    assert_eq!(rename_all, RenameRule::UpperCase);
}

#[test]
fn parse_rename_rule() {
    let rename_all = RenameRule::from_string("UPPERCASE").unwrap();

    assert_eq!(rename_all, RenameRule::UpperCase);
}

#[test]
fn test_rename() {
    {
        let fields = vec![FieldOptsInput {
            ident: Some("test_field".to_string()),
            ty: "usize".to_string(),
            rename: Some(Rename::WithRule(
                RenameRule::from_string("SCREAMING-KEBAB-CASE").unwrap(),
            )),
        }];

        assert_eq!(fields.len(), 1);
        assert_eq!(fields[0].ident.as_ref().unwrap().to_string(), "test_field");
        assert_eq!(
            fields[0].rename,
            Some(Rename::WithRule(RenameRule::ScreamingKebabCase)),
        );
    }

    {
        let fields = vec![FieldOptsInput {
            ident: None,
            ty: "usize".to_string(),
            rename: Some(Rename::from_string("my_name").unwrap()),
        }];

        assert_eq!(fields.len(), 1);
        assert!(fields[0].ident.is_none());
        assert_eq!(fields[0].rename, Some(Rename::Literal("my_name".into())))
    }
}

#[test]
fn every_rule_is_read_from_its_name() {
    let names = [
        "lowercase",
        "UPPERCASE",
        "PascalCase",
        "camelCase",
        "snake_case",
        "SCREAMING_SNAKE_CASE",
        "kebab-case",
        "SCREAMING-KEBAB-CASE",
    ];
    for (name, rule) in names.iter().zip(RULES.iter()) {
        assert_eq!(RenameRule::from_string(name), Ok(*rule));
    }
}

#[test]
fn unknown_rule_name_is_an_error() {
    assert_eq!(
        RenameRule::from_string("Uppercase"),
        Err("Unknown literal value `Uppercase`".to_string())
    );
    assert_eq!(
        RenameRule::from_string(""),
        Err("Unknown literal value ``".to_string())
    );
}

#[test]
fn rename_variants() {
    let cases = [
        (
            "Outcome", "outcome", "OUTCOME", "outcome", "outcome", "OUTCOME", "outcome", "OUTCOME",
        ),
        (
            "VeryTasty",
            "verytasty",
            "VERYTASTY",
            "veryTasty",
            "very_tasty",
            "VERY_TASTY",
            "very-tasty",
            "VERY-TASTY",
        ),
        ("A", "a", "A", "a", "a", "A", "a", "A"),
        ("Z42", "z42", "Z42", "z42", "z42", "Z42", "z42", "Z42"),
    ];
    for (original, lower, upper, camel, snake, screaming, kebab, screaming_kebab) in cases {
        assert_eq!(RenameRule::LowerCase.apply_to_variant(original), lower);
        assert_eq!(RenameRule::UpperCase.apply_to_variant(original), upper);
        assert_eq!(RenameRule::PascalCase.apply_to_variant(original), original);
        assert_eq!(RenameRule::CamelCase.apply_to_variant(original), camel);
        assert_eq!(RenameRule::SnakeCase.apply_to_variant(original), snake);
        assert_eq!(
            RenameRule::ScreamingSnakeCase.apply_to_variant(original),
            screaming
        );
        assert_eq!(RenameRule::KebabCase.apply_to_variant(original), kebab);
        assert_eq!(
            RenameRule::ScreamingKebabCase.apply_to_variant(original),
            screaming_kebab
        );
    }
}

#[test]
fn rename_fields() {
    let cases = [
        (
            "outcome", "OUTCOME", "Outcome", "outcome", "OUTCOME", "outcome", "OUTCOME",
        ),
        (
            "very_tasty",
            "VERY_TASTY",
            "VeryTasty",
            "veryTasty",
            "VERY_TASTY",
            "very-tasty",
            "VERY-TASTY",
        ),
        ("a", "A", "A", "a", "A", "a", "A"),
        ("z42", "Z42", "Z42", "z42", "Z42", "z42", "Z42"),
    ];
    for (original, upper, pascal, camel, screaming, kebab, screaming_kebab) in cases {
        assert_eq!(RenameRule::UpperCase.apply_to_field(original), upper);
        assert_eq!(RenameRule::PascalCase.apply_to_field(original), pascal);
        assert_eq!(RenameRule::CamelCase.apply_to_field(original), camel);
        assert_eq!(RenameRule::SnakeCase.apply_to_field(original), original);
        assert_eq!(RenameRule::LowerCase.apply_to_field(original), original);
        assert_eq!(
            RenameRule::ScreamingSnakeCase.apply_to_field(original),
            screaming
        );
        assert_eq!(RenameRule::KebabCase.apply_to_field(original), kebab);
        assert_eq!(
            RenameRule::ScreamingKebabCase.apply_to_field(original),
            screaming_kebab
        );
    }
}

#[test]
fn named_examples_of_renaming() {
    assert_eq!(RenameRule::CamelCase.apply_to_field("my_data"), "myData");
    assert_eq!(
        RenameRule::PascalCase.apply_to_field("another_data"),
        "AnotherData"
    );
    assert_eq!(
        RenameRule::ScreamingSnakeCase.apply_to_variant("MyValueA"),
        "MY_VALUE_A"
    );
    assert_eq!(RenameRule::KebabCase.apply_to_variant("MyValueB"), "my-value-b");
}

#[test]
fn upper_and_lower_case_are_fixed_points() {
    for name in ["VeryTasty", "very_tasty", "Z42", "", "mIxEd_Case-9", "Éa"] {
        for rule in [RenameRule::UpperCase, RenameRule::LowerCase] {
            let once = rule.apply_to_variant(name);
            assert_eq!(rule.apply_to_variant(&once), once);
            let once = rule.apply_to_field(name);
            assert_eq!(rule.apply_to_field(&once), once);
        }
    }
}

#[test]
fn renaming_is_total_on_short_names() {
    for rule in RULES {
        assert_eq!(rule.apply_to_variant(""), "");
        assert_eq!(rule.apply_to_field(""), "");
    }
    assert_eq!(RenameRule::CamelCase.apply_to_field("__"), "");
    assert_eq!(RenameRule::PascalCase.apply_to_field("_a__b_"), "AB");
    assert_eq!(RenameRule::CamelCase.apply_to_field("_a__b_"), "aB");
}

#[test]
fn only_ascii_case_is_changed() {
    assert_eq!(RenameRule::UpperCase.apply_to_variant("éa"), "éA");
    assert_eq!(RenameRule::LowerCase.apply_to_variant("ÉA"), "Éa");
    assert_eq!(RenameRule::CamelCase.apply_to_variant("Éa"), "Éa");
    // an upper-case letter of any script starts a new word
    assert_eq!(RenameRule::SnakeCase.apply_to_variant("MyÉcole"), "my_École");
    assert_eq!(RenameRule::SnakeCase.apply_to_variant("my_Value"), "my__value");
}

#[test]
fn literal_rename_ignores_the_name() {
    let rename = Rename::Literal("type".to_string());
    assert_eq!(rename.rename_field("kind"), "type");
    assert_eq!(rename.rename_variant("Kind"), "type");
}

#[test]
fn rename_with_rule_applies_the_rule() {
    let rename = Rename::WithRule(RenameRule::CamelCase);
    assert_eq!(rename.rename_field("my_data"), "myData");
    assert_eq!(rename.rename_variant("MyValueB"), "myValueB");
    let copy = rename.clone();
    assert_eq!(copy, rename);
    assert_eq!(
        Rename::Literal("a".to_string()).clone(),
        Rename::Literal("a".to_string())
    );
}
