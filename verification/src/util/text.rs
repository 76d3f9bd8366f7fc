//! Character-level text operations, stated over `Seq<char>`.

use vstd::prelude::*;

verus! {

/// Whether a character has the Unicode `Uppercase` property.
pub uninterp spec fn unicode_uppercase(c: char) -> bool;

/// `char::is_uppercase` of std: the result is the Unicode `Uppercase`
/// property of the character, a fixed table that is not spelled out here.
pub assume_specification[ char::is_uppercase ](c: char) -> (r: bool)
    ensures
        r == unicode_uppercase(c),
;

/// `String::push` of std: the character is appended at the end.
pub assume_specification[ std::string::String::push ](s: &mut std::string::String, c: char)
    ensures
        final(s)@ == old(s)@.push(c),
;

/// The ASCII lower-case form of a character; any other character is itself.
pub open spec fn ascii_lower(c: char) -> char {
    if 'A' <= c && c <= 'Z' {
        ((c as u8) + 32) as char
    } else {
        c
    }
}

/// The ASCII upper-case form of a character; any other character is itself.
pub open spec fn ascii_upper(c: char) -> char {
    if 'a' <= c && c <= 'z' {
        ((c as u8) - 32) as char
    } else {
        c
    }
}

/// Every character in its ASCII lower-case form.
pub open spec fn lowercase(s: Seq<char>) -> Seq<char> {
    s.map_values(|c: char| ascii_lower(c))
}

/// Every character in its ASCII upper-case form.
pub open spec fn uppercase(s: Seq<char>) -> Seq<char> {
    s.map_values(|c: char| ascii_upper(c))
}

/// Every occurrence of `from` replaced by `to`.
pub open spec fn replace_char(s: Seq<char>, from: char, to: char) -> Seq<char> {
    s.map_values(
        |c: char|
            if c == from {
                to
            } else {
                c
            },
    )
}

/// The first character in its ASCII lower-case form, the rest unchanged.
pub open spec fn lower_first(s: Seq<char>) -> Seq<char> {
    if s.len() == 0 {
        s
    } else {
        s.update(0, ascii_lower(s[0]))
    }
}

pub fn char_to_ascii_lowercase(c: char) -> (r: char)
    ensures
        r == ascii_lower(c),
{
    if 'A' <= c && c <= 'Z' {
        ((c as u8) + 32) as char
    } else {
        c
    }
}

pub fn char_to_ascii_uppercase(c: char) -> (r: char)
    ensures
        r == ascii_upper(c),
{
    if 'a' <= c && c <= 'z' {
        ((c as u8) - 32) as char
    } else {
        c
    }
}

pub fn to_ascii_lowercase(s: &str) -> (r: String)
    ensures
        r@ == lowercase(s@),
{
    let mut out = String::new();
    for c in it: s.chars()
        invariant
            it.seq() == s@,
            out@ == lowercase(s@.take(it.index())),
    {
        proof {
            let i = it.index();
            assert(s@.take(i + 1) =~= s@.take(i).push(c));
            assert(lowercase(s@.take(i).push(c)) =~= lowercase(s@.take(i)).push(ascii_lower(c)));
        }
        out.push(char_to_ascii_lowercase(c));
    }
    proof {
        assert(s@.take(s@.len() as int) =~= s@);
    }
    out
}

pub fn to_ascii_uppercase(s: &str) -> (r: String)
    ensures
        r@ == uppercase(s@),
{
    let mut out = String::new();
    for c in it: s.chars()
        invariant
            it.seq() == s@,
            out@ == uppercase(s@.take(it.index())),
    {
        proof {
            let i = it.index();
            assert(s@.take(i + 1) =~= s@.take(i).push(c));
            assert(uppercase(s@.take(i).push(c)) =~= uppercase(s@.take(i)).push(ascii_upper(c)));
        }
        out.push(char_to_ascii_uppercase(c));
    }
    proof {
        assert(s@.take(s@.len() as int) =~= s@);
    }
    out
}

pub fn replace(s: &str, from: char, to: char) -> (r: String)
    ensures
        r@ == replace_char(s@, from, to),
{
    let mut out = String::new();
    for c in it: s.chars()
        invariant
            it.seq() == s@,
            out@ == replace_char(s@.take(it.index()), from, to),
    {
        proof {
            let i = it.index();
            assert(s@.take(i + 1) =~= s@.take(i).push(c));
            assert(replace_char(s@.take(i).push(c), from, to) =~= replace_char(
                s@.take(i),
                from,
                to,
            ).push(
                if c == from {
                    to
                } else {
                    c
                },
            ));
        }
        out.push(
            if c == from {
                to
            } else {
                c
            },
        );
    }
    proof {
        assert(s@.take(s@.len() as int) =~= s@);
    }
    out
}

pub fn lowercase_first(s: &str) -> (r: String)
    ensures
        r@ == lower_first(s@),
{
    let mut out = String::new();
    for c in it: s.chars()
        invariant
            it.seq() == s@,
            out@ == lower_first(s@.take(it.index())),
    {
        proof {
            let i = it.index();
            assert(s@.take(i + 1) =~= s@.take(i).push(c));
            assert(lower_first(s@.take(i).push(c)) =~= lower_first(s@.take(i)).push(
                if i == 0 {
                    ascii_lower(c)
                } else {
                    c
                },
            ));
        }
        let first = out.as_str().is_empty();
        out.push(
            if first {
                char_to_ascii_lowercase(c)
            } else {
                c
            },
        );
    }
    proof {
        assert(s@.take(s@.len() as int) =~= s@);
    }
    out
}

/// The ASCII case maps are idempotent on characters.
pub proof fn lemma_ascii_case_idempotent(c: char)
    ensures
        ascii_lower(ascii_lower(c)) == ascii_lower(c),
        ascii_upper(ascii_upper(c)) == ascii_upper(c),
{
}

/// Whether two strings hold the same characters.
pub fn str_eq(a: &str, b: &str) -> (r: bool)
    ensures
        r == (a@ == b@),
{
    a.to_owned() == b.to_owned()
}

/// The character of the decimal digit `d`.
pub open spec fn digit_char(d: int) -> char {
    (48 + d) as char
}

/// The decimal form of a number, without leading zeros.
pub open spec fn decimal(n: nat) -> Seq<char>
    decreases n,
{
    if n < 10 {
        seq![digit_char(n as int)]
    } else {
        decimal(n / 10).push(digit_char((n % 10) as int))
    }
}

/// Appends the decimal form of `n`.
pub fn push_decimal(out: &mut String, n: usize)
    ensures
        final(out)@ == old(out)@ + decimal(n as nat),
    decreases n,
{
    if n >= 10 {
        push_decimal(out, n / 10);
    }
    let digit = (48u8 + (n % 10) as u8) as char;
    proof {
        let before = old(out)@;
        if n >= 10 {
            assert((before + decimal((n / 10) as nat)).push(digit) =~= before + decimal(n as nat));
        } else {
            assert(before.push(digit) =~= before + decimal(n as nat));
        }
    }
    out.push(digit);
}

} // verus!
