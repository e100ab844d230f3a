//! The fixed table of stylisation rules behind the search patterns.
//!
//! A rule rewrites one or two characters of a search term to a pattern that
//! also accepts the ways in which fans and romanisation schemes commonly
//! write them.

use vstd::prelude::*;

verus! {

/// The pattern of the rule whose key is the two characters `a`, `b`.
pub open spec fn pair_rule(a: char, b: char) -> Option<Seq<char>> {
    if a == 'o' && b == 'u' {
        Some("(ou|ō|o)"@)
    } else if a == 'o' && b == 'o' {
        Some("(oo|ō|o)"@)
    } else if a == 'o' && b == 'h' {
        Some("(oh|ō|o)"@)
    } else if a == 'w' && b == 'o' {
        Some("(wo|o)"@)
    } else if a == 'u' && b == 'u' {
        Some("(uu|u|ū)"@)
    } else if a == 'a' && b == 'a' {
        Some("(aa|a)"@)
    } else if a == 'a' && b == 'e' {
        Some("(ae|æ)"@)
    } else {
        None
    }
}

/// The pattern of the rule whose key is the single character `c`.
pub open spec fn char_rule(c: char) -> Option<Seq<char>> {
    if c == '\u{13C}' {
        Some("[ļĻ]"@)
    } else if c == 'l' {
        Some("[l˥ļĻΛ]"@)
    } else if c == '\u{17A}' {
        Some("[źŹ]"@)
    } else if c == 'z' {
        Some("[zźŹ]"@)
    } else if c == '\u{14D}' {
        Some("[Ōō]"@)
    } else if c == 'o' {
        Some("([oōŌóòöôøӨΦο]|ou|oo|oh|wo)"@)
    } else if c == '\u{16B}' {
        Some("[ūŪ]"@)
    } else if c == 'u' {
        Some("([uūŪûúùüǖμ]|uu)"@)
    } else if c == '\u{3BB}' {
        Some("[λΛ]"@)
    } else if c == 'a' {
        Some("([aäãά@âàáạåæā∀Λ]|aa)"@)
    } else if c == 'c' {
        Some("[cςč℃Ↄ]"@)
    } else if c == '\u{E9}' {
        Some("[éÉ]"@)
    } else if c == 'e' {
        Some("[eəéÉêёëèæē]"@)
    } else if c == '\'' {
        Some("['’ˈ]"@)
    } else if c == 'n' {
        Some("[nñ]"@)
    } else if c == '0' {
        Some("[0Ө]"@)
    } else if c == '2' {
        Some("[2²₂]"@)
    } else if c == '3' {
        Some("[3³]"@)
    } else if c == '5' {
        Some("[5⁵]"@)
    } else if c == '*' {
        Some("[*✻＊✳︎]"@)
    } else if c == ' ' {
        Some("([^\\w]+|_+)"@)
    } else if c == 'i' {
        Some("([iíίɪ]|ii)"@)
    } else if c == 'x' {
        Some("[x×]"@)
    } else if c == 'b' {
        Some("[bßβ]"@)
    } else if c == 'r' {
        Some("[rЯ]"@)
    } else if c == 's' {
        Some("[sς]"@)
    } else {
        None
    }
}

/// Looks up the rule whose key is the two characters `a`, `b`.
pub fn lookup_pair_rule(a: char, b: char) -> (r: Option<&'static str>)
    ensures
        r is Some <==> pair_rule(a, b) is Some,
        r is Some ==> r->0@ == pair_rule(a, b)->0,
{
    if a == 'o' && b == 'u' {
        Some("(ou|ō|o)")
    } else if a == 'o' && b == 'o' {
        Some("(oo|ō|o)")
    } else if a == 'o' && b == 'h' {
        Some("(oh|ō|o)")
    } else if a == 'w' && b == 'o' {
        Some("(wo|o)")
    } else if a == 'u' && b == 'u' {
        Some("(uu|u|ū)")
    } else if a == 'a' && b == 'a' {
        Some("(aa|a)")
    } else if a == 'a' && b == 'e' {
        Some("(ae|æ)")
    } else {
        None
    }
}

/// Looks up the rule whose key is the single character `c`.
pub fn lookup_char_rule(c: char) -> (r: Option<&'static str>)
    ensures
        r is Some <==> char_rule(c) is Some,
        r is Some ==> r->0@ == char_rule(c)->0,
{
    if c == '\u{13C}' {
        Some("[ļĻ]")
    } else if c == 'l' {
        Some("[l˥ļĻΛ]")
    } else if c == '\u{17A}' {
        Some("[źŹ]")
    } else if c == 'z' {
        Some("[zźŹ]")
    } else if c == '\u{14D}' {
        Some("[Ōō]")
    } else if c == 'o' {
        Some("([oōŌóòöôøӨΦο]|ou|oo|oh|wo)")
    } else if c == '\u{16B}' {
        Some("[ūŪ]")
    } else if c == 'u' {
        Some("([uūŪûúùüǖμ]|uu)")
    } else if c == '\u{3BB}' {
        Some("[λΛ]")
    } else if c == 'a' {
        Some("([aäãά@âàáạåæā∀Λ]|aa)")
    } else if c == 'c' {
        Some("[cςč℃Ↄ]")
    } else if c == '\u{E9}' {
        Some("[éÉ]")
    } else if c == 'e' {
        Some("[eəéÉêёëèæē]")
    } else if c == '\'' {
        Some("['’ˈ]")
    } else if c == 'n' {
        Some("[nñ]")
    } else if c == '0' {
        Some("[0Ө]")
    } else if c == '2' {
        Some("[2²₂]")
    } else if c == '3' {
        Some("[3³]")
    } else if c == '5' {
        Some("[5⁵]")
    } else if c == '*' {
        Some("[*✻＊✳︎]")
    } else if c == ' ' {
        Some("([^\\w]+|_+)")
    } else if c == 'i' {
        Some("([iíίɪ]|ii)")
    } else if c == 'x' {
        Some("[x×]")
    } else if c == 'b' {
        Some("[bßβ]")
    } else if c == 'r' {
        Some("[rЯ]")
    } else if c == 's' {
        Some("[sς]")
    } else {
        None
    }
}

} // verus!
