//! Character classes and number literals.

use vstd::prelude::*;

verus! {

/// The white space of μRust: horizontal tab, line feed, vertical tab, form feed, carriage
/// return, space, next line (U+0085), left-to-right mark (U+200E), right-to-left mark
/// (U+200F), line separator (U+2028) and paragraph separator (U+2029).
pub open spec fn whitespace(c: char) -> bool {
    c == '\t' || c == '\n' || c == '\u{000B}' || c == '\u{000C}' || c == '\r' || c == ' ' || c
        == '\u{0085}' || c == '\u{200E}' || c == '\u{200F}' || c == '\u{2028}' || c == '\u{2029}'
}

/// The character that ends a line: line feed.
pub open spec fn new_line(c: char) -> bool {
    c == '\n'
}

/// The ASCII digits `0` to `9`.
pub open spec fn digit(c: char) -> bool {
    '0' <= c && c <= '9'
}

/// Checks if the character is a whitespace.
pub fn is_whitespace(c: char) -> (r: bool)
    ensures
        r == whitespace(c),
{
    c == '\t' || c == '\n' || c == '\u{000B}' || c == '\u{000C}' || c == '\r' || c == ' ' || c
        == '\u{0085}' || c == '\u{200E}' || c == '\u{200F}' || c == '\u{2028}' || c == '\u{2029}'
}

/// Checks if the character is a new line, i.e. `'\n'`.
pub fn is_new_line(c: char) -> (r: bool)
    ensures
        r == new_line(c),
{
    c == '\n'
}

/// Checks if the character is an ASCII digit.
pub fn is_digit(c: char) -> (r: bool)
    ensures
        r == digit(c),
{
    '0' <= c && c <= '9'
}

/// Whether the character has the Unicode property XID_Start.
pub uninterp spec fn xid_start(c: char) -> bool;

/// Whether the character has the Unicode property XID_Continue.
pub uninterp spec fn xid_continue(c: char) -> bool;

/// The ASCII characters.
pub open spec fn ascii(c: char) -> bool {
    c <= '\u{7f}'
}

/// The ASCII letters `a` to `z` and `A` to `Z`.
pub open spec fn ascii_letter(c: char) -> bool {
    ('a' <= c && c <= 'z') || ('A' <= c && c <= 'Z')
}

/// The ASCII letters, the digits and the underscore.
pub open spec fn ascii_word_part(c: char) -> bool {
    ascii_letter(c) || digit(c) || c == '_'
}

/// Calls `unicode_ident::is_xid_start`, which tells whether a character has the Unicode
/// property XID_Start. The contract gives that answer the name [`xid_start`]. Of the
/// ASCII characters it says which have the property, as the table of the outside crate
/// fixes it: the letters, and no other. Of the other characters it says nothing.
#[verifier::external_body]
pub(crate) fn is_xid_start(c: char) -> (r: bool)
    ensures
        r == xid_start(c),
        ascii(c) ==> r == ascii_letter(c),
{
    unicode_ident::is_xid_start(c)
}

/// Calls `unicode_ident::is_xid_continue`, which tells whether a character has the Unicode
/// property XID_Continue. The contract gives that answer the name [`xid_continue`]. Of
/// the ASCII characters it says which have the property, as the table of the outside
/// crate fixes it: the letters, the digits and the underscore, and no other. Of the other
/// characters it says nothing.
#[verifier::external_body]
pub(crate) fn is_xid_continue(c: char) -> (r: bool)
    ensures
        r == xid_continue(c),
        ascii(c) ==> r == ascii_word_part(c),
{
    unicode_ident::is_xid_continue(c)
}

/// Tells whether a word may start with the character: it has the Unicode property
/// XID_Start, or it is the underscore. Among the ASCII characters, the letters have the
/// property.
pub fn is_word_start(c: char) -> (r: bool)
    ensures
        r == (xid_start(c) || c == '_'),
        ascii(c) ==> xid_start(c) == ascii_letter(c),
{
    let start = is_xid_start(c);
    start || c == '_'
}

/// Tells whether a word may go on with the character: it has the Unicode property
/// XID_Continue. Among the ASCII characters, the letters, the digits and the underscore
/// have the property.
pub fn is_word_part(c: char) -> (r: bool)
    ensures
        r == xid_continue(c),
        ascii(c) ==> xid_continue(c) == ascii_word_part(c),
{
    is_xid_continue(c)
}

/// The number that the digit `c` stands for.
pub open spec fn digit_value(c: char) -> nat {
    (c as int - '0' as int) as nat
}

/// Whether every character of `s` is a digit.
pub open spec fn all_digits(s: Seq<char>) -> bool {
    forall|i: int| 0 <= i < s.len() ==> digit(#[trigger] s[i])
}

/// The number that the digits `s` denote in base ten.
pub open spec fn decimal_value(s: Seq<char>) -> nat
    decreases s.len(),
{
    if s.len() == 0 {
        0
    } else {
        decimal_value(s.drop_last()) * 10 + digit_value(s.last())
    }
}

/// The value of the integer literal `s`: `s` is a non-empty run of digits that denotes a
/// number of at most `i32::MAX`. Any other text is no integer literal.
pub open spec fn int_literal(s: Seq<char>) -> Option<i32> {
    if s.len() > 0 && all_digits(s) && decimal_value(s) <= i32::MAX {
        Some(decimal_value(s) as i32)
    } else {
        None
    }
}

/// The value of a run of digits does not get smaller when more digits follow.
pub proof fn lemma_decimal_value_prefix(s: Seq<char>, n: int)
    requires
        0 <= n <= s.len(),
    ensures
        decimal_value(s.take(n)) <= decimal_value(s),
    decreases s.len(),
{
    if n == s.len() {
        assert(s.take(n) =~= s);
    } else {
        lemma_decimal_value_prefix(s.drop_last(), n);
        assert(s.drop_last().take(n) =~= s.take(n));
    }
}

/// Reads `text` as an integer literal.
pub fn parse_int(text: &Vec<char>) -> (r: Option<i32>)
    ensures
        r == int_literal(text@),
{
    if text.len() == 0 {
        return None;
    }
    let mut value: i32 = 0;
    let mut i: usize = 0;
    while i < text.len()
        invariant
            i <= text.len(),
            all_digits(text@.take(i as int)),
            value == decimal_value(text@.take(i as int)),
        decreases text.len() - i,
    {
        let c = text[i];
        proof {
            assert(text@.take(i + 1).drop_last() =~= text@.take(i as int));
            assert(text@.take(i + 1).last() == c);
            lemma_decimal_value_prefix(text@, i + 1);
        }
        if !is_digit(c) {
            assert(!all_digits(text@));
            return None;
        }
        let d: i32 = (c as u32 - '0' as u32) as i32;
        if value > (i32::MAX - d) / 10 {
            return None;
        }
        value = value * 10 + d;
        assert forall|k: int| 0 <= k < i + 1 implies digit(#[trigger] text@.take(i + 1)[k]) by {
            if k < i {
                assert(text@.take(i as int)[k] == text@.take(i + 1)[k]);
            }
        }
        i += 1;
    }
    assert(text@.take(i as int) =~= text@);
    Some(value)
}

/// The end of the longest run of digits of `s` that starts at `from`.
pub open spec fn digits_end(s: Seq<char>, from: int) -> int
    decreases s.len() - from,
{
    if 0 <= from < s.len() && digit(s[from]) {
        digits_end(s, from + 1)
    } else {
        from
    }
}

/// Whether `s` is the text of a floating-point literal: one or more digits, a dot, digits
/// if any, and then, if anything, an exponent: `e` or `E` with one or more digits.
pub open spec fn is_float_text(s: Seq<char>) -> bool {
    let dot = digits_end(s, 0);
    let fraction_end = digits_end(s, dot + 1);
    let exponent_end = digits_end(s, fraction_end + 1);
    &&& 0 < dot < s.len()
    &&& s[dot] == '.'
    &&& (fraction_end == s.len() || ((s[fraction_end] == 'e' || s[fraction_end] == 'E')
        && fraction_end + 1 < exponent_end && exponent_end == s.len()))
}

/// The end of the longest run of digits of `text` that starts at `from`.
pub fn skip_digits(text: &Vec<char>, from: usize) -> (r: usize)
    requires
        from <= text.len(),
    ensures
        r == digits_end(text@, from as int),
        from <= r <= text.len(),
{
    let mut i: usize = from;
    while i < text.len() && is_digit(text[i])
        invariant
            from <= i <= text.len(),
            digits_end(text@, from as int) == digits_end(text@, i as int),
        decreases text.len() - i,
    {
        i += 1;
    }
    i
}

/// Tells whether `text` is the text of a floating-point literal.
pub fn is_float_literal(text: &Vec<char>) -> (r: bool)
    ensures
        r == is_float_text(text@),
{
    let dot = skip_digits(text, 0);
    if dot == 0 || dot >= text.len() || text[dot] != '.' {
        return false;
    }
    let fraction_end = skip_digits(text, dot + 1);
    if fraction_end == text.len() {
        return true;
    }
    if text[fraction_end] != 'e' && text[fraction_end] != 'E' {
        return false;
    }
    let exponent_end = skip_digits(text, fraction_end + 1);
    fraction_end + 1 < exponent_end && exponent_end == text.len()
}

/// Tells whether `text` holds a dot.
pub fn has_dot(text: &Vec<char>) -> (r: bool)
    ensures
        r == text@.contains('.'),
{
    let mut i: usize = 0;
    while i < text.len()
        invariant
            i <= text.len(),
            forall|k: int| 0 <= k < i ==> text@[k] != '.',
        decreases text.len() - i,
    {
        if text[i] == '.' {
            return true;
        }
        i += 1;
    }
    false
}

} // verus!
