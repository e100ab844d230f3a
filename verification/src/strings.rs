//! Character-level helpers on which the text engine is built.

use vstd::prelude::*;

verus! {

/// The lowercase form that the standard library gives a string.
pub uninterp spec fn lowercased(s: Seq<char>) -> Seq<char>;

/// Whether the standard library counts `c` as alphabetic or numeric.
pub uninterp spec fn alphanumeric(c: char) -> bool;

/// Whether the standard library counts `c` as white space.
pub uninterp spec fn whitespace(c: char) -> bool;

/// An ASCII lowercase letter or an ASCII digit.
pub open spec fn is_lower_or_digit(c: char) -> bool {
    ('a' <= c && c <= 'z') || ('0' <= c && c <= '9')
}

/// An ASCII capital letter.
pub open spec fn is_ascii_capital(c: char) -> bool {
    'A' <= c && c <= 'Z'
}

/// An ASCII letter or an ASCII digit.
pub open spec fn is_ascii_alnum(c: char) -> bool {
    is_lower_or_digit(c) || is_ascii_capital(c)
}

/// A string made of ASCII lowercase letters, ASCII digits and spaces only.
pub open spec fn is_plain(s: Seq<char>) -> bool {
    forall|i: int| 0 <= i < s.len() ==> is_lower_or_digit(#[trigger] s[i]) || s[i] == ' '
}

/// Every character lies in the ASCII range.
pub open spec fn is_ascii_text(s: Seq<char>) -> bool {
    forall|i: int| 0 <= i < s.len() ==> #[trigger] s[i] <= '\u{7f}'
}

/// The small letter of an ASCII capital letter; any other character itself.
pub open spec fn ascii_lower(c: char) -> char {
    if is_ascii_capital(c) {
        ((c as u8 + 32) as u8) as char
    } else {
        c
    }
}

/// A text with every ASCII capital letter made small.
pub open spec fn ascii_lowered(s: Seq<char>) -> Seq<char> {
    s.map_values(|c: char| ascii_lower(c))
}

/// Calls `str::to_lowercase`. The result is named by [`lowercased`]. Of the
/// ASCII characters only the capital letters have a lowercase form of their
/// own, so an ASCII text comes back with its capital letters made small and
/// is otherwise unchanged.
#[verifier::external_body]
fn to_lowercase(s: &str) -> (r: String)
    ensures
        r@ == lowercased(s@),
        is_ascii_text(s@) ==> r@ == ascii_lowered(s@),
{
    s.to_lowercase()
}

/// Calls `char::is_alphanumeric`. The result is named by [`alphanumeric`]. Of
/// the ASCII characters exactly the letters and the digits are alphabetic or
/// numeric.
#[verifier::external_body]
fn is_alphanumeric(c: char) -> (b: bool)
    ensures
        b == alphanumeric(c),
        c <= '\u{7f}' ==> b == is_ascii_alnum(c),
{
    c.is_alphanumeric()
}

/// Calls `char::is_whitespace`. The result is named by [`whitespace`]. The
/// space is white space; ASCII letters and digits are not.
#[verifier::external_body]
fn is_whitespace(c: char) -> (b: bool)
    ensures
        b == whitespace(c),
        c == ' ' ==> b,
        is_ascii_alnum(c) ==> !b,
{
    c.is_whitespace()
}

/// The lowercase form of a text: an ASCII text with its capital letters made
/// small, any other text as the standard library lowers it.
pub open spec fn lowered(s: Seq<char>) -> Seq<char> {
    if is_ascii_text(s) {
        ascii_lowered(s)
    } else {
        lowercased(s)
    }
}

/// Whether a character counts as a letter or a digit: of the ASCII
/// characters the letters and digits, of the others those that the standard
/// library counts as alphabetic or numeric.
pub open spec fn is_alnum(c: char) -> bool {
    if c <= '\u{7f}' {
        is_ascii_alnum(c)
    } else {
        alphanumeric(c)
    }
}

/// Whether a character is white space: the space is, ASCII letters and
/// digits are not, and of any other character the standard library decides.
pub open spec fn is_blank(c: char) -> bool {
    c == ' ' || (!is_ascii_alnum(c) && whitespace(c))
}

/// Lowers a text.
pub fn lower(s: &str) -> (r: String)
    ensures
        r@ == lowered(s@),
{
    to_lowercase(s)
}

/// Whether `c` counts as a letter or a digit.
pub fn is_alnum_char(c: char) -> (b: bool)
    ensures
        b == is_alnum(c),
{
    is_alphanumeric(c)
}

/// Whether `c` is white space.
pub fn is_blank_char(c: char) -> (b: bool)
    ensures
        b == is_blank(c),
{
    is_whitespace(c)
}

/// Calls `String::push`, which appends one character.
#[verifier::external_body]
pub(crate) fn push_char(s: &mut String, c: char)
    ensures
        final(s)@ == old(s)@.push(c),
{
    s.push(c);
}

/// The characters of `s`, in order.
pub fn chars_of(s: &str) -> (v: Vec<char>)
    ensures
        v@ == s@,
{
    let mut v: Vec<char> = Vec::new();
    for c in it: s.chars()
        invariant
            v@ == it.seq().take(it.index()),
            it.seq() == s@,
    {
        v.push(c);
    }
    v
}

/// The string that holds the characters `v[from..to]`.
pub fn string_of(v: &Vec<char>, from: usize, to: usize) -> (s: String)
    requires
        from <= to <= v.len(),
    ensures
        s@ == v@.subrange(from as int, to as int),
{
    let mut s = String::new();
    let mut i: usize = from;
    while i < to
        invariant
            from <= i <= to <= v.len(),
            s@ == v@.subrange(from as int, i as int),
        decreases to - i,
    {
        push_char(&mut s, v[i]);
        i += 1;
    }
    s
}

/// The first position at or after `from` that holds no white space.
pub open spec fn skip_space(s: Seq<char>, from: int) -> int
    decreases s.len() - from,
{
    if 0 <= from < s.len() && is_blank(s[from]) {
        skip_space(s, from + 1)
    } else {
        from
    }
}

/// Finds the first position at or after `from` that holds no white space.
pub fn scan_space(cs: &Vec<char>, from: usize) -> (r: usize)
    requires
        from <= cs.len(),
    ensures
        r == skip_space(cs@, from as int),
        from <= r <= cs.len(),
{
    let mut i: usize = from;
    while i < cs.len() && is_blank_char(cs[i])
        invariant
            from <= i <= cs.len(),
            skip_space(cs@, i as int) == skip_space(cs@, from as int),
        decreases cs.len() - i,
    {
        i += 1;
    }
    i
}

/// Whether two strings hold the same text.
pub fn str_eq(a: &str, b: &str) -> (r: bool)
    ensures
        r == (a@ == b@),
{
    let x = chars_of(a);
    let y = chars_of(b);
    if x.len() != y.len() {
        return false;
    }
    let mut i: usize = 0;
    while i < x.len()
        invariant
            i <= x.len(),
            x.len() == y.len(),
            x@ == a@,
            y@ == b@,
            forall|j: int| 0 <= j < i ==> x@[j] == y@[j],
        decreases x.len() - i,
    {
        if x[i] != y[i] {
            return false;
        }
        i += 1;
    }
    proof {
        assert(x@ =~= y@);
    }
    true
}

} // verus!
