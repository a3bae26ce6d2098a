//! Small text helpers shared by the topic, payload and address
//! formatting: character classification, lowercasing and character-wise
//! string building.

use vstd::prelude::*;

verus! {

/// What `str::to_lowercase` returns for the given characters; the result
/// depends on the characters alone.
pub uninterp spec fn lower_of(s: Seq<char>) -> Seq<char>;

/// Whether `char::is_alphanumeric` holds of the character; a fixed
/// classification of the character alone.
pub uninterp spec fn is_alphanumeric_char(c: char) -> bool;

/// Relies on str::to_lowercase: the lowercase equivalent of the slice,
/// a function of its characters alone.
#[verifier::external_body]
fn to_lowercase(s: &str) -> (r: String)
    ensures
        r@ == lower_of(s@),
{
    s.to_lowercase()
}

/// Relies on char::is_alphanumeric: whether the character is a letter
/// or a number under Unicode's general categories.
#[verifier::external_body]
fn char_is_alphanumeric(c: char) -> (r: bool)
    ensures
        r == is_alphanumeric_char(c),
{
    c.is_alphanumeric()
}

/// Relies on String::push: appends the given character to the string.
#[verifier::external_body]
pub(crate) fn push_char(s: &mut String, c: char)
    ensures
        final(s)@ == old(s)@ + seq![c],
{
    s.push(c);
}

/// One character of a sanitized name: alphanumeric characters are kept,
/// every other character becomes an underscore.
pub open spec fn sanitize_char(c: char) -> char {
    if is_alphanumeric_char(c) {
        c
    } else {
        '_'
    }
}

/// The character-wise replacement stage of sanitization.
pub open spec fn sanitize_chars(s: Seq<char>) -> Seq<char> {
    s.map_values(|c: char| sanitize_char(c))
}

/// The sanitized form of a device name: the lowercased name with every
/// non-alphanumeric character replaced by an underscore.
pub open spec fn spec_sanitize_name(s: Seq<char>) -> Seq<char> {
    sanitize_chars(lower_of(s))
}

/// Sanitize a device name for use as a topic segment: lowercase it and
/// replace every non-alphanumeric character with an underscore.
pub fn sanitize_name(name: &str) -> (r: String)
    ensures
        r@ == spec_sanitize_name(name@),
{
    let lowered = to_lowercase(name);
    let n = lowered.as_str().unicode_len();
    let mut out = String::new();
    let mut i: usize = 0;
    while i < n
        invariant
            n == lowered@.len(),
            i <= n,
            out@ == sanitize_chars(lowered@.take(i as int)),
        decreases n - i,
    {
        let c = lowered.as_str().get_char(i);
        proof {
            assert(lowered@.take(i + 1) =~= lowered@.take(i as int).push(lowered@[i as int]));
            assert(sanitize_chars(lowered@.take(i + 1)) =~= sanitize_chars(
                lowered@.take(i as int),
            ).push(sanitize_char(lowered@[i as int])));
        }
        if char_is_alphanumeric(c) {
            push_char(&mut out, c);
        } else {
            push_char(&mut out, '_');
        }
        i = i + 1;
    }
    proof {
        assert(lowered@.take(n as int) =~= lowered@);
    }
    out
}

/// The character-wise replacement stage is idempotent: a kept character
/// is alphanumeric and is kept again, and an underscore is replaced by
/// an underscore whether or not it counts as alphanumeric.
pub proof fn lemma_sanitize_chars_idempotent(s: Seq<char>)
    ensures
        sanitize_chars(sanitize_chars(s)) == sanitize_chars(s),
{
    assert(sanitize_chars(sanitize_chars(s)) =~= sanitize_chars(s));
}

/// The decimal digit `d` as a character.
pub open spec fn digit_char(d: int) -> char
    recommends
        0 <= d < 10,
{
    if d == 0 {
        '0'
    } else if d == 1 {
        '1'
    } else if d == 2 {
        '2'
    } else if d == 3 {
        '3'
    } else if d == 4 {
        '4'
    } else if d == 5 {
        '5'
    } else if d == 6 {
        '6'
    } else if d == 7 {
        '7'
    } else if d == 8 {
        '8'
    } else {
        '9'
    }
}

/// The hexadecimal digit `d` as an upper-case character.
pub open spec fn hex_digit_upper(d: int) -> char
    recommends
        0 <= d < 16,
{
    if d < 10 {
        digit_char(d)
    } else if d == 10 {
        'A'
    } else if d == 11 {
        'B'
    } else if d == 12 {
        'C'
    } else if d == 13 {
        'D'
    } else if d == 14 {
        'E'
    } else {
        'F'
    }
}

/// The hexadecimal digit `d` as a lower-case character.
pub open spec fn hex_digit_lower(d: int) -> char
    recommends
        0 <= d < 16,
{
    if d < 10 {
        digit_char(d)
    } else if d == 10 {
        'a'
    } else if d == 11 {
        'b'
    } else if d == 12 {
        'c'
    } else if d == 13 {
        'd'
    } else if d == 14 {
        'e'
    } else {
        'f'
    }
}

/// The decimal digit `d` as a character.
pub fn digit_char_of(d: u8) -> (c: char)
    requires
        d < 10,
    ensures
        c == digit_char(d as int),
{
    if d == 0 {
        '0'
    } else if d == 1 {
        '1'
    } else if d == 2 {
        '2'
    } else if d == 3 {
        '3'
    } else if d == 4 {
        '4'
    } else if d == 5 {
        '5'
    } else if d == 6 {
        '6'
    } else if d == 7 {
        '7'
    } else if d == 8 {
        '8'
    } else {
        '9'
    }
}

/// The hexadecimal digit `d` as an upper-case character.
pub fn hex_digit_upper_of(d: u8) -> (c: char)
    requires
        d < 16,
    ensures
        c == hex_digit_upper(d as int),
{
    if d < 10 {
        digit_char_of(d)
    } else if d == 10 {
        'A'
    } else if d == 11 {
        'B'
    } else if d == 12 {
        'C'
    } else if d == 13 {
        'D'
    } else if d == 14 {
        'E'
    } else {
        'F'
    }
}

/// The hexadecimal digit `d` as a lower-case character.
pub fn hex_digit_lower_of(d: u8) -> (c: char)
    requires
        d < 16,
    ensures
        c == hex_digit_lower(d as int),
{
    if d < 10 {
        digit_char_of(d)
    } else if d == 10 {
        'a'
    } else if d == 11 {
        'b'
    } else if d == 12 {
        'c'
    } else if d == 13 {
        'd'
    } else if d == 14 {
        'e'
    } else {
        'f'
    }
}

} // verus!
