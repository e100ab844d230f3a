//! Search patterns for the catalog: a term is expanded rule by rule into a
//! regular expression that also accepts its common stylisations.

use vstd::prelude::*;
use vstd::string::StringExecFns;
use crate::names::{actor_name, process_artist_name};
use crate::rules::{char_rule, lookup_char_rule, lookup_pair_rule, pair_rule};
use crate::strings::{chars_of, push_char};

verus! {

/// A term with every rule of the table applied, left to right. Where a
/// two-character rule and a one-character rule both start at a position, the
/// longer key wins; a character that starts no key stands for itself.
pub open spec fn expanded(s: Seq<char>) -> Seq<char>
    decreases s.len(),
{
    if s.len() == 0 {
        Seq::empty()
    } else if s.len() >= 2 && pair_rule(s[0], s[1]) is Some {
        pair_rule(s[0], s[1])->0 + expanded(s.skip(2))
    } else if char_rule(s[0]) is Some {
        char_rule(s[0])->0 + expanded(s.skip(1))
    } else {
        seq![s[0]] + expanded(s.skip(1))
    }
}

/// The search pattern of a term: its expansion, anchored at both ends where a
/// whole-word match is asked for.
pub open spec fn search_pattern(s: Seq<char>, whole_word: bool) -> Seq<char> {
    if whole_word {
        seq!['^'] + expanded(s) + seq!['$']
    } else {
        expanded(s)
    }
}

/// Builds the search pattern of `input`.
pub fn create_regex(input: &str, whole_word_match: bool) -> (r: String)
    ensures
        r@ == search_pattern(input@, whole_word_match),
{
    let cs = chars_of(input);
    let mut out = String::new();
    if whole_word_match {
        push_char(&mut out, '^');
    }
    let ghost head = out@;
    let mut i: usize = 0;
    proof {
        assert(cs@.skip(0) == cs@);
    }
    while i < cs.len()
        invariant
            i <= cs.len(),
            cs@ == input@,
            out@ + expanded(cs@.skip(i as int)) == head + expanded(cs@),
        decreases cs.len() - i,
    {
        let ghost rest = cs@.skip(i as int);
        let ghost before = out@;
        let c = cs[i];
        let pair = if i + 1 < cs.len() {
            lookup_pair_rule(c, cs[i + 1])
        } else {
            None
        };
        match pair {
            Some(pattern) => {
                out.append(pattern);
                proof {
                    assert(rest.skip(2) == cs@.skip(i as int + 2));
                    assert(out@ + expanded(cs@.skip(i as int + 2)) == before + expanded(rest));
                }
                i += 2;
            },
            None => {
                match lookup_char_rule(c) {
                    Some(pattern) => {
                        out.append(pattern);
                    },
                    None => {
                        push_char(&mut out, c);
                        proof {
                            assert(out@ == before + seq![c]);
                        }
                    },
                }
                proof {
                    assert(rest.skip(1) == cs@.skip(i as int + 1));
                    assert(out@ + expanded(cs@.skip(i as int + 1)) == before + expanded(rest));
                }
                i += 1;
            },
        }
    }
    proof {
        assert(expanded(cs@.skip(cs.len() as int)) == Seq::<char>::empty());
        assert(out@ == head + expanded(cs@));
    }
    if whole_word_match {
        push_char(&mut out, '$');
    }
    out
}

/// The alternation of the search patterns of some artist names, each name
/// first reduced to the performing artist.
pub open spec fn artist_pattern(names: Seq<Seq<char>>, whole_word: bool) -> Seq<char>
    decreases names.len(),
{
    if names.len() == 0 {
        Seq::empty()
    } else if names.len() == 1 {
        search_pattern(actor_name(names[0]), whole_word)
    } else {
        artist_pattern(names.drop_last(), whole_word) + seq!['|'] + search_pattern(
            actor_name(names.last()),
            whole_word,
        )
    }
}

/// The texts of a list of borrowed strings.
pub open spec fn texts_of(input: Seq<&String>) -> Seq<Seq<char>> {
    Seq::new(input.len(), |i: int| input[i]@)
}

/// Builds one pattern that matches any of the given artist names: each name
/// is reduced to the performing artist, turned into its search pattern, and
/// the patterns are joined by `|`.
pub fn create_artist_regex(input: Vec<&String>, whole_word_match: bool) -> (r: String)
    ensures
        r@ == artist_pattern(texts_of(input@), whole_word_match),
{
    let mut out = String::new();
    let ghost names = texts_of(input@);
    let mut i: usize = 0;
    while i < input.len()
        invariant
            i <= input.len(),
            names == texts_of(input@),
            out@ == artist_pattern(names.take(i as int), whole_word_match),
        decreases input.len() - i,
    {
        let actor = process_artist_name(input[i].as_str());
        let pattern = create_regex(actor.as_str(), whole_word_match);
        proof {
            let upto = names.take(i as int + 1);
            assert(upto.drop_last() == names.take(i as int));
            assert(upto.last() == input@[i as int]@);
        }
        if i > 0 {
            push_char(&mut out, '|');
        }
        out.append(pattern.as_str());
        i += 1;
    }
    proof {
        assert(names.take(input.len() as int) == names);
    }
    out
}

} // verus!
