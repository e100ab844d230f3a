//! Artist names as the song database writes them. A character song is
//! credited as `Character (CV: Actor)` or `Character (Vo. Actor)`; matching
//! works on the performing artist alone.

use vstd::prelude::*;
use crate::strings::{chars_of, is_blank, is_blank_char, scan_space, skip_space, string_of};

verus! {

/// Whether one of the openers `(CV:`, `(CV.`, `(Vo:`, `(Vo.` starts at `p`.
pub open spec fn opener_at(s: Seq<char>, p: int) -> bool {
    &&& 0 <= p
    &&& p + 4 <= s.len()
    &&& s[p] == '('
    &&& (s[p + 1] == 'C' && s[p + 2] == 'V') || (s[p + 1] == 'V' && s[p + 2] == 'o')
    &&& s[p + 3] == ':' || s[p + 3] == '.'
}

/// The first position at or after `from` that holds `)` or a line feed; the
/// length of the text where neither follows.
pub open spec fn name_end(s: Seq<char>, from: int) -> int
    decreases s.len() - from,
{
    if from < 0 || from >= s.len() {
        s.len() as int
    } else if s[from] == ')' || s[from] == '\n' {
        from
    } else {
        name_end(s, from + 1)
    }
}

/// Where the actor's name starts in the attribution that opens at `p`.
pub open spec fn actor_start(s: Seq<char>, p: int) -> int {
    skip_space(s, p + 4)
}

/// Where the actor's name ends in the attribution that opens at `p`.
pub open spec fn actor_end(s: Seq<char>, p: int) -> int {
    name_end(s, actor_start(s, p))
}

/// Whether a complete attribution starts at `p`: an opener, optional white
/// space, and a name that runs to a closing bracket on the same line.
pub open spec fn attribution_at(s: Seq<char>, p: int) -> bool {
    &&& opener_at(s, p)
    &&& actor_end(s, p) < s.len()
    &&& s[actor_end(s, p)] == ')'
}

/// The first position at or after `from` where a complete attribution
/// starts; the length of the text where there is none.
pub open spec fn next_attribution(s: Seq<char>, from: int) -> int
    decreases s.len() - from,
{
    if from < 0 || from >= s.len() {
        s.len() as int
    } else if attribution_at(s, from) {
        from
    } else {
        next_attribution(s, from + 1)
    }
}

/// The start of the line that holds `p`, but not before `from`.
pub open spec fn line_start(s: Seq<char>, from: int, p: int) -> int
    decreases p - from,
{
    if p <= from || p > s.len() {
        from
    } else if s[p - 1] == '\n' {
        p
    } else {
        line_start(s, from, p - 1)
    }
}

/// The text from `from` on with every attribution replaced by its actor: what
/// stands on the attribution's line before it goes, the actor's name stays.
pub open spec fn without_attributions(s: Seq<char>, from: int) -> Seq<char>
    decreases s.len() - from,
{
    if from < 0 || from >= s.len() {
        Seq::empty()
    } else {
        let p = next_attribution(s, from);
        if from <= p < s.len() && p + 4 <= actor_start(s, p) <= actor_end(s, p) < s.len() {
            s.subrange(from, line_start(s, from, p)) + s.subrange(
                actor_start(s, p),
                actor_end(s, p),
            ) + without_attributions(s, actor_end(s, p) + 1)
        } else {
            s.subrange(from, s.len() as int)
        }
    }
}

/// The end of the text `s[from..to]` once trailing white space is cut.
pub open spec fn trim_end(s: Seq<char>, from: int, to: int) -> int
    decreases to - from,
{
    if from < to <= s.len() && is_blank(s[to - 1]) {
        trim_end(s, from, to - 1)
    } else {
        to
    }
}

/// A text without leading and trailing white space.
pub open spec fn trimmed(s: Seq<char>) -> Seq<char> {
    let from = skip_space(s, 0);
    s.subrange(from, trim_end(s, from, s.len() as int))
}

/// Whether a text holds a complete attribution.
pub open spec fn has_attribution(s: Seq<char>) -> bool {
    next_attribution(s, 0) < s.len()
}

/// The performing artist of a credited name: a name with an attribution is
/// rewritten to the actor and trimmed, any other name stands as it is.
pub open spec fn actor_name(s: Seq<char>) -> Seq<char> {
    if has_attribution(s) {
        trimmed(without_attributions(s, 0))
    } else {
        s
    }
}

fn scan_name_end(cs: &Vec<char>, from: usize) -> (r: usize)
    requires
        from <= cs.len(),
    ensures
        r == name_end(cs@, from as int),
        from <= r <= cs.len(),
{
    let mut i: usize = from;
    while i < cs.len() && cs[i] != ')' && cs[i] != '\n'
        invariant
            from <= i <= cs.len(),
            name_end(cs@, i as int) == name_end(cs@, from as int),
        decreases cs.len() - i,
    {
        i += 1;
    }
    i
}

fn has_opener(cs: &Vec<char>, p: usize) -> (b: bool)
    requires
        p < cs.len(),
    ensures
        b == opener_at(cs@, p as int),
{
    if cs.len() - p < 4 {
        return false;
    }
    cs[p] == '(' && ((cs[p + 1] == 'C' && cs[p + 2] == 'V') || (cs[p + 1] == 'V' && cs[p + 2]
        == 'o')) && (cs[p + 3] == ':' || cs[p + 3] == '.')
}

/// The bounds of the actor's name in the attribution that starts at `p`, if
/// a complete one starts there.
fn attribution_bounds(cs: &Vec<char>, p: usize) -> (r: Option<(usize, usize)>)
    requires
        p < cs.len(),
    ensures
        r is Some <==> attribution_at(cs@, p as int),
        r is Some ==> {
            let (a, e) = r->0;
            &&& a == actor_start(cs@, p as int)
            &&& e == actor_end(cs@, p as int)
            &&& p + 4 <= a <= e < cs.len()
        },
{
    if !has_opener(cs, p) {
        return None;
    }
    let a = scan_space(cs, p + 4);
    let e = scan_name_end(cs, a);
    if e < cs.len() && cs[e] == ')' {
        Some((a, e))
    } else {
        None
    }
}

/// The next complete attribution at or after `from`: where it starts, and
/// the bounds of the actor's name.
fn find_attribution(cs: &Vec<char>, from: usize) -> (r: Option<(usize, usize, usize)>)
    requires
        from <= cs.len(),
    ensures
        r is None <==> next_attribution(cs@, from as int) >= cs.len(),
        r is Some ==> {
            let (p, a, e) = r->0;
            &&& p == next_attribution(cs@, from as int)
            &&& from <= p < cs.len()
            &&& a == actor_start(cs@, p as int)
            &&& e == actor_end(cs@, p as int)
            &&& p + 4 <= a <= e < cs.len()
        },
{
    let mut p: usize = from;
    while p < cs.len()
        invariant
            from <= p <= cs.len(),
            next_attribution(cs@, p as int) == next_attribution(cs@, from as int),
        decreases cs.len() - p,
    {
        match attribution_bounds(cs, p) {
            Some((a, e)) => {
                return Some((p, a, e));
            },
            None => {},
        }
        p += 1;
    }
    None
}

fn scan_line_start(cs: &Vec<char>, from: usize, p: usize) -> (r: usize)
    requires
        from <= p <= cs.len(),
    ensures
        r == line_start(cs@, from as int, p as int),
        from <= r <= p,
{
    let mut i: usize = p;
    while i > from && cs[i - 1] != '\n'
        invariant
            from <= i <= p <= cs.len(),
            line_start(cs@, from as int, i as int) == line_start(cs@, from as int, p as int),
        decreases i - from,
    {
        i -= 1;
    }
    i
}

fn extend_from(out: &mut Vec<char>, cs: &Vec<char>, from: usize, to: usize)
    requires
        from <= to <= cs.len(),
    ensures
        final(out)@ == old(out)@ + cs@.subrange(from as int, to as int),
{
    let mut i: usize = from;
    while i < to
        invariant
            from <= i <= to <= cs.len(),
            out@ == old(out)@ + cs@.subrange(from as int, i as int),
        decreases to - i,
    {
        out.push(cs[i]);
        proof {
            assert(cs@.subrange(from as int, i as int + 1) == cs@.subrange(from as int, i as int).push(
                cs@[i as int],
            ));
        }
        i += 1;
    }
}

fn trim_chars(cs: &Vec<char>) -> (r: String)
    ensures
        r@ == trimmed(cs@),
{
    let from = scan_space(cs, 0);
    let mut to: usize = cs.len();
    while to > from && is_blank_char(cs[to - 1])
        invariant
            from <= to <= cs.len(),
            trim_end(cs@, from as int, to as int) == trim_end(cs@, from as int, cs.len() as int),
        decreases to - from,
    {
        to -= 1;
    }
    string_of(cs, from, to)
}

/// Takes the performing artist from a name such as
/// `Perhaps a character (CV: Actual Artist)`; a name without such an
/// attribution is returned unchanged.
pub fn process_artist_name(name: &str) -> (r: String)
    ensures
        r@ == actor_name(name@),
{
    let cs = chars_of(name);
    let mut out: Vec<char> = Vec::new();
    let mut from: usize = 0;
    let mut found = false;
    while from < cs.len()
        invariant
            from <= cs.len(),
            cs@ == name@,
            found ==> has_attribution(cs@),
            !found ==> from == 0 && out@.len() == 0,
            out@ + without_attributions(cs@, from as int) == without_attributions(cs@, 0),
        decreases cs.len() - from,
    {
        match find_attribution(&cs, from) {
            Some((p, a, e)) => {
                let start = scan_line_start(&cs, from, p);
                let ghost before = out@;
                extend_from(&mut out, &cs, from, start);
                extend_from(&mut out, &cs, a, e);
                proof {
                    assert(out@ + without_attributions(cs@, e as int + 1) == before
                        + without_attributions(cs@, from as int));
                    if !found {
                        assert(next_attribution(cs@, 0) == p);
                    }
                }
                found = true;
                from = e + 1;
            },
            None => {
                if !found {
                    return name.to_owned();
                }
                let ghost before = out@;
                extend_from(&mut out, &cs, from, cs.len());
                proof {
                    assert(out@ + without_attributions(cs@, cs.len() as int) == before
                        + without_attributions(cs@, from as int));
                }
                from = cs.len();
            },
        }
    }
    proof {
        assert(out@ + Seq::<char>::empty() == out@);
    }
    if found {
        trim_chars(&out)
    } else {
        name.to_owned()
    }
}

} // verus!
