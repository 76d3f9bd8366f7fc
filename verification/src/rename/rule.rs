//! The fixed set of casing rules.

use crate::util::text::{
    ascii_lower, ascii_upper, char_to_ascii_lowercase, char_to_ascii_uppercase,
    lemma_ascii_case_idempotent, lower_first, lowercase, lowercase_first, replace, replace_char,
    str_eq, to_ascii_lowercase, to_ascii_uppercase, unicode_uppercase, uppercase,
};
use vstd::prelude::*;
use vstd::string::StringExecFns;

verus! {

/// A casing rule, applied to the name of a field or of a variant.
///
/// Field names are taken to be written in `snake_case` and variant names in
/// `PascalCase`, so the same rule acts differently on the two.
#[derive(Debug, Clone, Copy, PartialEq, Eq, Structural)]
pub enum RenameRule {
    /// "lowercase"
    LowerCase,
    /// "UPPERCASE"
    UpperCase,
    /// "PascalCase", as typically written for enum variants.
    PascalCase,
    /// "camelCase"
    CamelCase,
    /// "snake_case", as typically written for fields.
    SnakeCase,
    /// "SCREAMING_SNAKE_CASE", as typically written for constants.
    ScreamingSnakeCase,
    /// "kebab-case"
    KebabCase,
    /// "SCREAMING-KEBAB-CASE"
    ScreamingKebabCase,
}

/// What position `i` of a `snake_case` name contributes to its `PascalCase`
/// form: nothing for an underscore, the upper-case letter at the start of a
/// word, the character itself elsewhere.
pub open spec fn pascal_piece(s: Seq<char>, i: int) -> Seq<char> {
    if s[i] == '_' {
        Seq::empty()
    } else if i == 0 || s[i - 1] == '_' {
        seq![ascii_upper(s[i])]
    } else {
        seq![s[i]]
    }
}

/// The `PascalCase` form of a `snake_case` name: the pieces of all positions,
/// in order.
pub open spec fn pascal_case(s: Seq<char>) -> Seq<char>
    decreases s.len(),
{
    if s.len() == 0 {
        Seq::empty()
    } else {
        pascal_case(s.drop_last()) + pascal_piece(s, s.len() - 1)
    }
}

/// What position `i` of a `PascalCase` name contributes to its `snake_case`
/// form: the lower-case character, after an underscore where an upper-case
/// letter stands anywhere but at the start.
pub open spec fn snake_piece(s: Seq<char>, i: int) -> Seq<char> {
    if i > 0 && unicode_uppercase(s[i]) {
        seq!['_', ascii_lower(s[i])]
    } else {
        seq![ascii_lower(s[i])]
    }
}

/// The `snake_case` form of a `PascalCase` name: the pieces of all positions,
/// in order.
pub open spec fn snake_case(s: Seq<char>) -> Seq<char>
    decreases s.len(),
{
    if s.len() == 0 {
        Seq::empty()
    } else {
        snake_case(s.drop_last()) + snake_piece(s, s.len() - 1)
    }
}

fn to_pascal_case(field: &str) -> (r: String)
    ensures
        r@ == pascal_case(field@),
{
    let mut pascal = String::new();
    let mut capitalize = true;
    for ch in it: field.chars()
        invariant
            it.seq() == field@,
            pascal@ == pascal_case(field@.take(it.index())),
            capitalize == (it.index() == 0 || field@[it.index() - 1] == '_'),
    {
        proof {
            let i = it.index();
            let next = field@.take(i + 1);
            assert(next.drop_last() =~= field@.take(i));
            assert(pascal_piece(next, i) == pascal_piece(field@, i));
        }
        if ch == '_' {
            capitalize = true;
        } else if capitalize {
            pascal.push(char_to_ascii_uppercase(ch));
            capitalize = false;
        } else {
            pascal.push(ch);
        }
    }
    proof {
        assert(field@.take(field@.len() as int) =~= field@);
    }
    pascal
}

fn to_snake_case(variant: &str) -> (r: String)
    ensures
        r@ == snake_case(variant@),
{
    let mut snake = String::new();
    let mut first = true;
    for ch in it: variant.chars()
        invariant
            it.seq() == variant@,
            snake@ == snake_case(variant@.take(it.index())),
            first == (it.index() == 0),
    {
        proof {
            let i = it.index();
            let next = variant@.take(i + 1);
            assert(next.drop_last() =~= variant@.take(i));
            assert(snake_piece(next, i) == snake_piece(variant@, i));
        }
        if !first && ch.is_uppercase() {
            snake.push('_');
        }
        snake.push(char_to_ascii_lowercase(ch));
        first = false;
    }
    proof {
        assert(variant@.take(variant@.len() as int) =~= variant@);
    }
    snake
}

/// The message for a name that is the name of no rule.
pub open spec fn unknown_rule_message(value: Seq<char>) -> Seq<char> {
    "Unknown literal value `"@ + value + "`"@
}

impl RenameRule {
    /// The rule that is written as `value`.
    pub open spec fn named(value: Seq<char>) -> Option<RenameRule> {
        if value == "lowercase"@ {
            Some(RenameRule::LowerCase)
        } else if value == "UPPERCASE"@ {
            Some(RenameRule::UpperCase)
        } else if value == "PascalCase"@ {
            Some(RenameRule::PascalCase)
        } else if value == "camelCase"@ {
            Some(RenameRule::CamelCase)
        } else if value == "snake_case"@ {
            Some(RenameRule::SnakeCase)
        } else if value == "SCREAMING_SNAKE_CASE"@ {
            Some(RenameRule::ScreamingSnakeCase)
        } else if value == "kebab-case"@ {
            Some(RenameRule::KebabCase)
        } else if value == "SCREAMING-KEBAB-CASE"@ {
            Some(RenameRule::ScreamingKebabCase)
        } else {
            None
        }
    }

    /// Reads a rule from its name, which is written in the style that the
    /// rule itself gives.
    pub fn from_string(value: &str) -> (r: Result<RenameRule, String>)
        ensures
            match r {
                Ok(rule) => Self::named(value@) == Some(rule),
                Err(message) => Self::named(value@) is None && message@ == unknown_rule_message(
                    value@,
                ),
            },
    {
        if str_eq(value, "lowercase") {
            Ok(RenameRule::LowerCase)
        } else if str_eq(value, "UPPERCASE") {
            Ok(RenameRule::UpperCase)
        } else if str_eq(value, "PascalCase") {
            Ok(RenameRule::PascalCase)
        } else if str_eq(value, "camelCase") {
            Ok(RenameRule::CamelCase)
        } else if str_eq(value, "snake_case") {
            Ok(RenameRule::SnakeCase)
        } else if str_eq(value, "SCREAMING_SNAKE_CASE") {
            Ok(RenameRule::ScreamingSnakeCase)
        } else if str_eq(value, "kebab-case") {
            Ok(RenameRule::KebabCase)
        } else if str_eq(value, "SCREAMING-KEBAB-CASE") {
            Ok(RenameRule::ScreamingKebabCase)
        } else {
            let mut message = String::from_str("Unknown literal value `");
            message.append(value);
            message.append("`");
            Err(message)
        }
    }

    /// The name that this rule gives to a variant written as `variant`.
    pub open spec fn variant_name(self, variant: Seq<char>) -> Seq<char> {
        match self {
            RenameRule::PascalCase => variant,
            RenameRule::LowerCase => lowercase(variant),
            RenameRule::UpperCase => uppercase(variant),
            RenameRule::CamelCase => lower_first(variant),
            RenameRule::SnakeCase => snake_case(variant),
            RenameRule::ScreamingSnakeCase => uppercase(snake_case(variant)),
            RenameRule::KebabCase => replace_char(snake_case(variant), '_', '-'),
            RenameRule::ScreamingKebabCase => replace_char(
                uppercase(snake_case(variant)),
                '_',
                '-',
            ),
        }
    }

    /// The name that this rule gives to a field written as `field`.
    pub open spec fn field_name(self, field: Seq<char>) -> Seq<char> {
        match self {
            RenameRule::LowerCase | RenameRule::SnakeCase => field,
            RenameRule::UpperCase | RenameRule::ScreamingSnakeCase => uppercase(field),
            RenameRule::PascalCase => pascal_case(field),
            RenameRule::CamelCase => lower_first(pascal_case(field)),
            RenameRule::KebabCase => replace_char(field, '_', '-'),
            RenameRule::ScreamingKebabCase => replace_char(uppercase(field), '_', '-'),
        }
    }

    /// Applies the rule to the name of an enum variant.
    pub fn apply_to_variant(&self, variant: &str) -> (r: String)
        ensures
            r@ == self.variant_name(variant@),
    {
        match self {
            RenameRule::PascalCase => variant.to_owned(),
            RenameRule::LowerCase => to_ascii_lowercase(variant),
            RenameRule::UpperCase => to_ascii_uppercase(variant),
            RenameRule::CamelCase => lowercase_first(variant),
            RenameRule::SnakeCase => to_snake_case(variant),
            RenameRule::ScreamingSnakeCase => {
                let snake = to_snake_case(variant);
                to_ascii_uppercase(snake.as_str())
            },
            RenameRule::KebabCase => {
                let snake = to_snake_case(variant);
                replace(snake.as_str(), '_', '-')
            },
            RenameRule::ScreamingKebabCase => {
                let snake = to_snake_case(variant);
                let screaming = to_ascii_uppercase(snake.as_str());
                replace(screaming.as_str(), '_', '-')
            },
        }
    }

    /// Applies the rule to the name of a struct field.
    pub fn apply_to_field(&self, field: &str) -> (r: String)
        ensures
            r@ == self.field_name(field@),
    {
        match self {
            RenameRule::LowerCase | RenameRule::SnakeCase => field.to_owned(),
            RenameRule::UpperCase => to_ascii_uppercase(field),
            RenameRule::PascalCase => to_pascal_case(field),
            RenameRule::CamelCase => {
                let pascal = to_pascal_case(field);
                lowercase_first(pascal.as_str())
            },
            RenameRule::ScreamingSnakeCase => to_ascii_uppercase(field),
            RenameRule::KebabCase => replace(field, '_', '-'),
            RenameRule::ScreamingKebabCase => {
                let screaming = to_ascii_uppercase(field);
                replace(screaming.as_str(), '_', '-')
            },
        }
    }
}

/// Applying `UPPERCASE` or `lowercase` a second time changes nothing, on
/// the name of a variant as on that of a field.
pub proof fn lemma_case_rules_idempotent(name: Seq<char>)
    ensures
        RenameRule::UpperCase.variant_name(RenameRule::UpperCase.variant_name(name))
            == RenameRule::UpperCase.variant_name(name),
        RenameRule::LowerCase.variant_name(RenameRule::LowerCase.variant_name(name))
            == RenameRule::LowerCase.variant_name(name),
        RenameRule::UpperCase.field_name(RenameRule::UpperCase.field_name(name))
            == RenameRule::UpperCase.field_name(name),
        RenameRule::LowerCase.field_name(RenameRule::LowerCase.field_name(name))
            == RenameRule::LowerCase.field_name(name),
{
    assert forall|c: char| ascii_upper(ascii_upper(c)) == ascii_upper(c) by {
        lemma_ascii_case_idempotent(c);
    }
    assert forall|c: char| ascii_lower(ascii_lower(c)) == ascii_lower(c) by {
        lemma_ascii_case_idempotent(c);
    }
    assert(uppercase(uppercase(name)) =~= uppercase(name));
    assert(lowercase(lowercase(name)) =~= lowercase(name));
}

} // verus!
