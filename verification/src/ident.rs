//! Identifier conventions: camel case to snake case, and capitalisation.
use vstd::prelude::*;

verus! {

/// An ASCII upper-case letter.
pub open spec fn is_upper(c: char) -> bool {
    'A' <= c <= 'Z'
}

/// An ASCII lower-case letter.
pub open spec fn is_lower(c: char) -> bool {
    'a' <= c <= 'z'
}

/// An ASCII digit.
pub open spec fn is_digit(c: char) -> bool {
    '0' <= c <= '9'
}

/// An ASCII letter or digit.
pub open spec fn is_alphanumeric(c: char) -> bool {
    is_upper(c) || is_lower(c) || is_digit(c)
}

/// The upper-case form of an ASCII lower-case letter; any other character unchanged.
pub open spec fn upper_of(c: char) -> char {
    if is_lower(c) {
        ((c as u8) - 32) as char
    } else {
        c
    }
}

/// The lower-case form of an ASCII upper-case letter; any other character unchanged.
pub open spec fn lower_of(c: char) -> char {
    if is_upper(c) {
        ((c as u8) + 32) as char
    } else {
        c
    }
}

/// Every character is an ASCII letter or digit.
pub open spec fn is_identifier(s: Seq<char>) -> bool {
    forall|i: int| 0 <= i < s.len() ==> is_alphanumeric(#[trigger] s[i])
}

/// Snake case: each character in lower case, with `_` in front of each that
/// was in upper case.
pub open spec fn snake(s: Seq<char>) -> Seq<char>
    decreases s.len(),
{
    if s.len() == 0 {
        Seq::empty()
    } else if is_upper(s.last()) {
        snake(s.drop_last()).push('_').push(lower_of(s.last()))
    } else {
        snake(s.drop_last()).push(lower_of(s.last()))
    }
}

/// Upper snake case: each character in upper case, with `_` in front of each
/// that already was.
pub open spec fn upper_snake(s: Seq<char>) -> Seq<char>
    decreases s.len(),
{
    if s.len() == 0 {
        Seq::empty()
    } else if is_upper(s.last()) {
        upper_snake(s.drop_last()).push('_').push(upper_of(s.last()))
    } else {
        upper_snake(s.drop_last()).push(upper_of(s.last()))
    }
}

/// `s` with its first character in upper case and the rest untouched.
pub open spec fn capitalized(s: Seq<char>) -> Seq<char>
    recommends
        s.len() > 0,
{
    s.update(0, upper_of(s[0]))
}

/// Only lower-case letters, digits and `_`.
pub open spec fn is_snake(s: Seq<char>) -> bool {
    forall|i: int| 0 <= i < s.len() ==> {
        let c = #[trigger] s[i];
        is_lower(c) || is_digit(c) || c == '_'
    }
}

/// Only upper-case letters, digits and `_`.
pub open spec fn is_upper_snake(s: Seq<char>) -> bool {
    forall|i: int| 0 <= i < s.len() ==> {
        let c = #[trigger] s[i];
        is_upper(c) || is_digit(c) || c == '_'
    }
}

/// The snake-case form of an identifier holds only lower-case letters, digits
/// and `_`.
pub proof fn lemma_snake_alphabet(s: Seq<char>)
    requires
        is_identifier(s),
    ensures
        is_snake(snake(s)),
    decreases s.len(),
{
    if s.len() > 0 {
        assert(is_identifier(s.drop_last())) by {
            assert forall|i: int| 0 <= i < s.drop_last().len() implies is_alphanumeric(
                #[trigger] s.drop_last()[i],
            ) by {
                assert(s.drop_last()[i] == s[i]);
            }
        }
        lemma_snake_alphabet(s.drop_last());
        assert(is_alphanumeric(s[s.len() - 1]));
    }
}

/// The upper-snake-case form of an identifier holds only upper-case letters,
/// digits and `_`.
pub proof fn lemma_upper_snake_alphabet(s: Seq<char>)
    requires
        is_identifier(s),
    ensures
        is_upper_snake(upper_snake(s)),
    decreases s.len(),
{
    if s.len() > 0 {
        assert(is_identifier(s.drop_last())) by {
            assert forall|i: int| 0 <= i < s.drop_last().len() implies is_alphanumeric(
                #[trigger] s.drop_last()[i],
            ) by {
                assert(s.drop_last()[i] == s[i]);
            }
        }
        lemma_upper_snake_alphabet(s.drop_last());
        assert(is_alphanumeric(s[s.len() - 1]));
    }
}

/// Capitalising twice is capitalising once, and a string that starts with an
/// upper-case letter is left as it is.
pub proof fn lemma_capitalized_idempotent(s: Seq<char>)
    requires
        s.len() > 0,
    ensures
        capitalized(capitalized(s)) == capitalized(s),
        is_upper(s[0]) ==> capitalized(s) == s,
{
    assert(capitalized(capitalized(s)) =~= capitalized(s));
    if is_upper(s[0]) {
        assert(capitalized(s) =~= s);
    }
}

fn to_upper(c: char) -> (r: char)
    ensures
        r == upper_of(c),
{
    if 'a' <= c && c <= 'z' {
        ((c as u8) - 32) as char
    } else {
        c
    }
}

fn to_lower(c: char) -> (r: char)
    ensures
        r == lower_of(c),
{
    if 'A' <= c && c <= 'Z' {
        ((c as u8) + 32) as char
    } else {
        c
    }
}

/// Whether every character of `s` is an ASCII letter or digit.
pub fn is_alphanumeric_name(s: &str) -> (r: bool)
    ensures
        r == is_identifier(s@),
{
    let n = s.unicode_len();
    let mut i: usize = 0;
    while i < n
        invariant
            i <= n,
            n == s@.len(),
            forall|j: int| 0 <= j < i ==> is_alphanumeric(#[trigger] s@[j]),
        decreases n - i,
    {
        let c = s.get_char(i);
        if !(('A' <= c && c <= 'Z') || ('a' <= c && c <= 'z') || ('0' <= c && c <= '9')) {
            return false;
        }
        i += 1;
    }
    true
}

/// Converts a camel-case identifier to upper snake case: `fooBar` becomes `FOO_BAR`.
pub fn camel_to_upper_case(s: &str) -> (r: String)
    requires
        is_identifier(s@),
    ensures
        r@ == upper_snake(s@),
        is_upper_snake(r@),
{
    let n = s.unicode_len();
    let mut out = String::new();
    let mut i: usize = 0;
    while i < n
        invariant
            i <= n,
            n == s@.len(),
            out@ == upper_snake(s@.take(i as int)),
        decreases n - i,
    {
        let c = s.get_char(i);
        proof {
            assert(s@.take(i + 1).drop_last() =~= s@.take(i as int));
            assert(s@.take(i + 1).last() == c);
        }
        if 'A' <= c && c <= 'Z' {
            out.push('_');
        }
        out.push(to_upper(c));
        i += 1;
    }
    proof {
        assert(s@.take(n as int) =~= s@);
        lemma_upper_snake_alphabet(s@);
    }
    out
}

/// Converts a camel-case identifier to snake case: `fooBar` becomes `foo_bar`.
pub fn camel_to_snake_case(s: &str) -> (r: String)
    requires
        is_identifier(s@),
    ensures
        r@ == snake(s@),
        is_snake(r@),
{
    let n = s.unicode_len();
    let mut out = String::new();
    let mut i: usize = 0;
    while i < n
        invariant
            i <= n,
            n == s@.len(),
            out@ == snake(s@.take(i as int)),
        decreases n - i,
    {
        let c = s.get_char(i);
        proof {
            assert(s@.take(i + 1).drop_last() =~= s@.take(i as int));
            assert(s@.take(i + 1).last() == c);
        }
        if 'A' <= c && c <= 'Z' {
            out.push('_');
        }
        out.push(to_lower(c));
        i += 1;
    }
    proof {
        assert(s@.take(n as int) =~= s@);
        lemma_snake_alphabet(s@);
    }
    out
}

/// Puts the first character of `s` in upper case and leaves the rest untouched.
pub fn capitalize_first_letter(s: &str) -> (r: String)
    requires
        s@.len() > 0,
    ensures
        r@ == capitalized(s@),
{
    let n = s.unicode_len();
    let mut out = String::new();
    out.push(to_upper(s.get_char(0)));
    let mut i: usize = 1;
    while i < n
        invariant
            1 <= i <= n,
            n == s@.len(),
            out@ == capitalized(s@).take(i as int),
        decreases n - i,
    {
        out.push(s.get_char(i));
        assert(out@ =~= capitalized(s@).take(i + 1));
        i += 1;
    }
    assert(capitalized(s@).take(n as int) =~= capitalized(s@));
    out
}

} // verus!
