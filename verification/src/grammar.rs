//! The small grammars of the song database's texts: words separated by white
//! space, whole numbers, and a text that ends in a number.

use vstd::prelude::*;
use crate::strings::{
    chars_of, is_blank, is_blank_char, push_char, scan_space, skip_space, string_of,
};

verus! {

/// The first position at or after `from` that holds white space; the length
/// of the text where none follows.
pub open spec fn word_end(s: Seq<char>, from: int) -> int
    decreases s.len() - from,
{
    if 0 <= from < s.len() && !is_blank(s[from]) {
        word_end(s, from + 1)
    } else {
        from
    }
}

/// The words of a text from `from` on: the longest runs of characters that
/// are no white space.
pub open spec fn words_from(s: Seq<char>, from: int) -> Seq<Seq<char>>
    decreases s.len() - from,
{
    let start = skip_space(s, from);
    let end = word_end(s, start);
    if 0 <= from <= start < end <= s.len() {
        seq![s.subrange(start, end)] + words_from(s, end)
    } else {
        Seq::empty()
    }
}

/// The words of a text.
pub open spec fn words(s: Seq<char>) -> Seq<Seq<char>> {
    words_from(s, 0)
}

/// Some words in a row with one space between each two.
pub open spec fn joined(ws: Seq<Seq<char>>) -> Seq<char>
    decreases ws.len(),
{
    if ws.len() == 0 {
        Seq::empty()
    } else if ws.len() == 1 {
        ws[0]
    } else {
        joined(ws.drop_last()) + seq![' '] + ws.last()
    }
}

/// Whether `c` is one of the digits 0 to 9.
pub open spec fn is_digit(c: char) -> bool {
    '0' <= c && c <= '9'
}

/// Whether a text is a row of at least one digit.
pub open spec fn is_digits(s: Seq<char>) -> bool {
    s.len() > 0 && forall|i: int| 0 <= i < s.len() ==> is_digit(#[trigger] s[i])
}

/// The number that a digit stands for.
pub open spec fn digit_value(c: char) -> int {
    c as int - '0' as int
}

/// The number that a row of digits stands for.
pub open spec fn digits_value(s: Seq<char>) -> int
    decreases s.len(),
{
    if s.len() == 0 {
        0
    } else {
        digits_value(s.drop_last()) * 10 + digit_value(s.last())
    }
}

/// The digits of a number text, without its sign.
pub open spec fn unsigned_part(s: Seq<char>) -> Seq<char> {
    if s.len() > 0 && (s[0] == '-' || s[0] == '+') {
        s.skip(1)
    } else {
        s
    }
}

/// The whole number that a text stands for: an optional sign and at least
/// one digit, within the range of 32 bits. Any other text stands for none.
pub open spec fn parsed_i32(s: Seq<char>) -> Option<i32> {
    let body = unsigned_part(s);
    let value = if s.len() > 0 && s[0] == '-' {
        -digits_value(body)
    } else {
        digits_value(body)
    };
    if is_digits(body) && i32::MIN <= value <= i32::MAX {
        Some(value as i32)
    } else {
        None
    }
}

/// A text split before its last word where that word is a number: the words
/// before it joined by single spaces, and the number. A text that does not
/// end in a number stays whole.
pub open spec fn split_number(s: Seq<char>) -> (Seq<char>, Option<i32>) {
    let ws = words(s);
    if ws.len() > 0 && parsed_i32(ws.last()) is Some {
        (joined(ws.drop_last()), parsed_i32(ws.last()))
    } else {
        (s, None)
    }
}

fn scan_word_end(cs: &Vec<char>, from: usize) -> (r: usize)
    requires
        from <= cs@.len(),
    ensures
        r == word_end(cs@, from as int),
        from <= r <= cs@.len(),
{
    let mut i: usize = from;
    while i < cs.len() && !is_blank_char(cs[i])
        invariant
            from <= i <= cs@.len(),
            word_end(cs@, i as int) == word_end(cs@, from as int),
        decreases cs@.len() - i,
    {
        i += 1;
    }
    i
}

/// Finds the words of a text: for each word the places where it starts and
/// ends.
pub fn word_bounds(cs: &Vec<char>) -> (r: Vec<(usize, usize)>)
    ensures
        r@.len() == words(cs@).len(),
        forall|k: int|
            0 <= k < r@.len() ==> (#[trigger] r@[k]).0 < r@[k].1 <= cs@.len() && cs@.subrange(
                r@[k].0 as int,
                r@[k].1 as int,
            ) == words(cs@)[k],
{
    let mut bounds: Vec<(usize, usize)> = Vec::new();
    let ghost mut found: Seq<Seq<char>> = Seq::empty();
    let mut from: usize = 0;
    let mut done = false;
    while !done
        invariant
            from <= cs@.len(),
            bounds@.len() == found.len(),
            found + words_from(cs@, from as int) == words(cs@),
            done ==> found == words(cs@),
            forall|k: int|
                0 <= k < bounds@.len() ==> (#[trigger] bounds@[k]).0 < bounds@[k].1 <= cs@.len()
                    && cs@.subrange(bounds@[k].0 as int, bounds@[k].1 as int) == found[k],
        decreases cs@.len() - from + if done { 0int } else { 1int },
    {
        let start = scan_space(cs, from);
        let end = scan_word_end(cs, start);
        if start >= end {
            proof {
                assert(words_from(cs@, from as int) == Seq::<Seq<char>>::empty());
                assert(found + Seq::<Seq<char>>::empty() == found);
            }
            done = true;
        } else {
            proof {
                let word = cs@.subrange(start as int, end as int);
                assert(found.push(word) + words_from(cs@, end as int) == found + (seq![word]
                    + words_from(cs@, end as int)));
                found = found.push(word);
            }
            bounds.push((start, end));
            from = end;
        }
    }
    bounds
}

/// Whether `c` is one of the digits 0 to 9.
pub fn is_digit_char(c: char) -> (b: bool)
    ensures
        b == is_digit(c),
{
    '0' <= c && c <= '9'
}

/// The number that a row of digits stands for, but no more than one above
/// the largest magnitude of 32 bits: enough to tell whether the number fits.
pub open spec fn capped_value(s: Seq<char>) -> int {
    if digits_value(s) > 0x8000_0000 {
        0x8000_0001
    } else {
        digits_value(s)
    }
}

/// Reads the row of digits `cs[from..to]`; `None` where it is empty or holds
/// anything but digits.
pub fn parse_digits(cs: &Vec<char>, from: usize, to: usize) -> (r: Option<i64>)
    requires
        from <= to <= cs@.len(),
    ensures
        r is Some <==> is_digits(cs@.subrange(from as int, to as int)),
        r is Some ==> r->0 == capped_value(cs@.subrange(from as int, to as int)),
        r is Some ==> 0 <= digits_value(cs@.subrange(from as int, to as int)),
{
    let ghost body = cs@.subrange(from as int, to as int);
    if from == to {
        return None;
    }
    let mut value: i64 = 0;
    let mut i: usize = from;
    while i < to
        invariant
            from <= i <= to <= cs@.len(),
            from < to,
            body == cs@.subrange(from as int, to as int),
            forall|k: int| 0 <= k < i - from ==> is_digit(#[trigger] body[k]),
            value == capped_value(body.take(i - from)),
            0 <= digits_value(body.take(i - from)),
        decreases to - i,
    {
        let c = cs[i];
        proof {
            assert(body[i - from] == c);
        }
        if !is_digit_char(c) {
            proof {
                assert(!is_digit(body[i - from]));
            }
            return None;
        }
        let digit = (c as u32 - '0' as u32) as i64;
        proof {
            let upto = body.take(i - from + 1);
            assert(upto.drop_last() == body.take(i - from));
            assert(upto.last() == c);
        }
        if value > 0x8000_0000 {
            value = 0x8000_0001;
        } else {
            value = value * 10 + digit;
            if value > 0x8000_0000 {
                value = 0x8000_0001;
            }
        }
        i += 1;
    }
    proof {
        assert(body.take(to - from) == body);
    }
    Some(value)
}

/// Reads the whole number that stands in `cs[from..to]`: an optional sign
/// and at least one digit, within the range of 32 bits.
pub fn parse_i32(cs: &Vec<char>, from: usize, to: usize) -> (r: Option<i32>)
    requires
        from <= to <= cs@.len(),
    ensures
        r == parsed_i32(cs@.subrange(from as int, to as int)),
{
    let ghost s = cs@.subrange(from as int, to as int);
    if from == to {
        return None;
    }
    let negative = cs[from] == '-';
    let start = if cs[from] == '-' || cs[from] == '+' {
        from + 1
    } else {
        from
    };
    proof {
        assert(s[0] == cs@[from as int]);
        assert(unsigned_part(s) == cs@.subrange(start as int, to as int));
    }
    match parse_digits(cs, start, to) {
        Some(value) => {
            if negative {
                if value <= 0x8000_0000 {
                    Some((0 - value) as i32)
                } else {
                    None
                }
            } else if value <= 0x7FFF_FFFF {
                Some(value as i32)
            } else {
                None
            }
        },
        None => None,
    }
}

/// Whether the digits behind a decimal point stand for more than a tenth.
pub open spec fn beyond_a_tenth(fraction: Seq<char>) -> bool {
    fraction.len() > 0 && (digit_value(fraction[0]) >= 2 || (fraction[0] == '1' && exists|k: int|
        1 <= k < fraction.len() && #[trigger] fraction[k] != '0'))
}

/// The place of the first decimal point of a text; the length of the text
/// where it has none.
pub open spec fn point_at(s: Seq<char>, from: int) -> int
    decreases s.len() - from,
{
    if 0 <= from < s.len() && s[from] != '.' {
        point_at(s, from + 1)
    } else {
        from
    }
}

/// The entry number that a text stands for: digits, or digits, a point and
/// digits. The number is what stands before the point, at most the largest
/// number of 32 bits; the part is 2 where what stands behind the point is
/// more than a tenth, and 1 otherwise. Any other text stands for none.
pub open spec fn parsed_entry(s: Seq<char>) -> Option<(i32, i16)> {
    let point = point_at(s, 0);
    let whole = s.subrange(0, point);
    let fraction = s.subrange(point + 1, s.len() as int);
    let number = if digits_value(whole) > i32::MAX {
        i32::MAX
    } else {
        digits_value(whole) as i32
    };
    if 0 <= point <= s.len() && is_digits(whole) {
        if point == s.len() {
            Some((number, 1i16))
        } else if is_digits(fraction) {
            Some((number, if beyond_a_tenth(fraction) { 2i16 } else { 1i16 }))
        } else {
            None
        }
    } else {
        None
    }
}

/// A text split before its last word where that word is an entry number.
/// A text that does not end in one stays whole.
pub open spec fn split_entry(s: Seq<char>) -> (Seq<char>, Option<(i32, i16)>) {
    let ws = words(s);
    if ws.len() > 0 && parsed_entry(ws.last()) is Some {
        (joined(ws.drop_last()), parsed_entry(ws.last()))
    } else {
        (s, None)
    }
}

/// Reads the entry number that stands in `cs[from..to]`.
pub fn parse_entry(cs: &Vec<char>, from: usize, to: usize) -> (r: Option<(i32, i16)>)
    requires
        from <= to <= cs@.len(),
    ensures
        r == parsed_entry(cs@.subrange(from as int, to as int)),
{
    let ghost s = cs@.subrange(from as int, to as int);
    let mut point: usize = from;
    while point < to && cs[point] != '.'
        invariant
            from <= point <= to <= cs@.len(),
            s == cs@.subrange(from as int, to as int),
            point_at(s, point - from) == point_at(s, 0),
        decreases to - point,
    {
        proof {
            assert(s[point - from] == cs@[point as int]);
        }
        point += 1;
    }
    proof {
        if point < to {
            assert(s[point - from] == cs@[point as int]);
        }
        assert(point_at(s, 0) == point - from);
        assert(s.subrange(0, point - from) == cs@.subrange(from as int, point as int));
    }
    let number = match parse_digits(cs, from, point) {
        Some(value) => if value > 0x7FFF_FFFF {
            0x7FFF_FFFFi32
        } else {
            value as i32
        },
        None => {
            return None;
        },
    };
    if point == to {
        return Some((number, 1));
    }
    let ghost fraction = s.subrange(point - from + 1, s.len() as int);
    proof {
        assert(fraction == cs@.subrange(point as int + 1, to as int));
    }
    match parse_digits(cs, point + 1, to) {
        Some(_) => {},
        None => {
            return None;
        },
    }
    let first = cs[point + 1];
    proof {
        assert(fraction[0] == first);
    }
    let mut beyond = (first as u32 - '0' as u32) >= 2;
    if first == '1' {
        let mut k: usize = point + 2;
        while k < to
            invariant
                point + 2 <= k <= to <= cs@.len(),
                fraction == cs@.subrange(point as int + 1, to as int),
                beyond <==> exists|j: int| 1 <= j < k - point - 1 && #[trigger] fraction[j] != '0',
            decreases to - k,
        {
            proof {
                assert(fraction[k - point - 1] == cs@[k as int]);
            }
            if cs[k] != '0' {
                beyond = true;
            }
            k += 1;
        }
    }
    Some((number, if beyond { 2 } else { 1 }))
}

/// Joins the words `cs[bounds[k]]` for `k` below `count` by single spaces.
fn join_words(cs: &Vec<char>, bounds: &Vec<(usize, usize)>, count: usize, Ghost(ws): Ghost<
    Seq<Seq<char>>,
>) -> (r: String)
    requires
        count <= bounds@.len(),
        bounds@.len() == ws.len(),
        forall|k: int|
            0 <= k < bounds@.len() ==> (#[trigger] bounds@[k]).0 < bounds@[k].1 <= cs@.len()
                && cs@.subrange(bounds@[k].0 as int, bounds@[k].1 as int) == ws[k],
    ensures
        r@ == joined(ws.take(count as int)),
{
    let mut out = String::new();
    let mut k: usize = 0;
    while k < count
        invariant
            k <= count <= bounds@.len(),
            bounds@.len() == ws.len(),
            out@ == joined(ws.take(k as int)),
            forall|k: int|
                0 <= k < bounds@.len() ==> (#[trigger] bounds@[k]).0 < bounds@[k].1 <= cs@.len()
                    && cs@.subrange(bounds@[k].0 as int, bounds@[k].1 as int) == ws[k],
        decreases count - k,
    {
        let (start, end) = bounds[k];
        let word = string_of(cs, start, end);
        proof {
            let upto = ws.take(k as int + 1);
            assert(upto.drop_last() == ws.take(k as int));
            assert(upto.last() == ws[k as int]);
            if k > 0 {
                assert(upto.len() > 1);
            } else {
                assert(upto[0] == ws[0]);
                assert(Seq::<char>::empty() + ws[0] == ws[0]);
            }
        }
        if k > 0 {
            push_char(&mut out, ' ');
        }
        out.append(word.as_str());
        k += 1;
    }
    out
}

/// Splits a text before its last word where that word is a whole number.
/// The words before the number come back joined by single spaces; a text
/// that does not end in a number comes back whole.
pub fn split_string(input: &str) -> (r: (String, Option<i32>))
    ensures
        r.0@ == split_number(input@).0,
        r.1 == split_number(input@).1,
{
    let cs = chars_of(input);
    let bounds = word_bounds(&cs);
    if bounds.len() > 0 {
        let (start, end) = bounds[bounds.len() - 1];
        match parse_i32(&cs, start, end) {
            Some(number) => {
                let text = join_words(&cs, &bounds, bounds.len() - 1, Ghost(words(cs@)));
                proof {
                    assert(words(cs@).take(bounds@.len() - 1) == words(cs@).drop_last());
                }
                return (text, Some(number));
            },
            None => {},
        }
    }
    (input.to_owned(), None)
}

/// Splits a text before its last word where that word is an entry number:
/// digits, or digits, a point and digits.
pub fn split_entry_string(input: &str) -> (r: (String, Option<(i32, i16)>))
    ensures
        r.0@ == split_entry(input@).0,
        r.1 == split_entry(input@).1,
{
    let cs = chars_of(input);
    let bounds = word_bounds(&cs);
    if bounds.len() > 0 {
        let (start, end) = bounds[bounds.len() - 1];
        match parse_entry(&cs, start, end) {
            Some(entry) => {
                let text = join_words(&cs, &bounds, bounds.len() - 1, Ghost(words(cs@)));
                proof {
                    assert(words(cs@).take(bounds@.len() - 1) == words(cs@).drop_last());
                }
                return (text, Some(entry));
            },
            None => {},
        }
    }
    (input.to_owned(), None)
}

/// Reads a whole number from a text: an optional sign and at least one
/// digit, within the range of 32 bits.
pub fn int_from_str(s: &str) -> (r: Option<i32>)
    ensures
        r == parsed_i32(s@),
{
    let cs = chars_of(s);
    proof {
        assert(cs@.subrange(0, cs@.len() as int) == cs@);
    }
    parse_i32(&cs, 0, cs.len())
}

} // verus!
