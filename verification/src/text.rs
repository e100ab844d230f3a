//! Text comparison: script detection, romanisation, normalisation, fuzzy
//! similarity and the search patterns handed to the catalog.

use vstd::prelude::*;
use crate::strings::{
    ascii_lower, ascii_lowered, is_alnum, is_alnum_char, is_ascii_text, is_lower_or_digit,
    is_plain, lower, lowered, push_char,
};

verus! {

/// How much of a text is written in Japanese script.
#[derive(Debug, Clone, Copy, PartialEq, Eq, Structural)]
pub enum IsJapanese {
    /// No kana and no CJK ideograph occurs.
    False,
    /// CJK ideographs occur, but no kana: the text may as well be Chinese.
    Maybe,
    /// At least one hiragana or katakana character occurs.
    True,
}

/// A hiragana or katakana character.
pub open spec fn is_kana(c: char) -> bool {
    ('\u{3041}' <= c && c <= '\u{3096}') || ('\u{30A1}' <= c && c <= '\u{30FA}')
}

/// A CJK unified ideograph of the basic block.
pub open spec fn is_kanji(c: char) -> bool {
    '\u{4E00}' <= c && c <= '\u{9FAF}'
}

/// The script class of a text: kana anywhere decides for `True`, otherwise an
/// ideograph anywhere decides for `Maybe`.
pub open spec fn script_of(s: Seq<char>) -> IsJapanese {
    if exists|i: int| 0 <= i < s.len() && is_kana(#[trigger] s[i]) {
        IsJapanese::True
    } else if exists|i: int| 0 <= i < s.len() && is_kanji(#[trigger] s[i]) {
        IsJapanese::Maybe
    } else {
        IsJapanese::False
    }
}

/// The Latin transliteration that kakasi gives a text.
pub uninterp spec fn romaji(s: Seq<char>) -> Seq<char>;

/// The ASCII transliteration that deunicode gives a text.
pub uninterp spec fn deunicoded(s: Seq<char>) -> Seq<char>;

/// The similarity ratio that fuzzywuzzy gives two texts.
pub uninterp spec fn ratio_of(a: Seq<char>, b: Seq<char>) -> u8;

/// The token set ratio that fuzzywuzzy gives two texts, both first reduced to
/// their ASCII alphanumeric tokens in lower case.
pub uninterp spec fn token_set_ratio_of(a: Seq<char>, b: Seq<char>) -> u8;

/// Whether `c` is a hiragana or katakana character.
pub fn is_kana_char(c: char) -> (b: bool)
    ensures
        b == is_kana(c),
{
    ('\u{3041}' <= c && c <= '\u{3096}') || ('\u{30A1}' <= c && c <= '\u{30FA}')
}

/// Whether `c` is a CJK unified ideograph of the basic block.
pub fn is_kanji_char(c: char) -> (b: bool)
    ensures
        b == is_kanji(c),
{
    '\u{4E00}' <= c && c <= '\u{9FAF}'
}

/// Classifies the script of `text` by the code points that occur in it. The
/// class is `False` only where neither kana nor an ideograph occurs.
pub fn is_japanese(text: &str) -> (r: IsJapanese)
    ensures
        r == script_of(text@),
        r is False <==> forall|i: int|
            0 <= i < text@.len() ==> !is_kana(#[trigger] text@[i]) && !is_kanji(text@[i]),
{
    let mut maybe = false;
    for c in it: text.chars()
        invariant
            it.seq() == text@,
            forall|j: int| 0 <= j < it.index() ==> !is_kana(#[trigger] text@[j]),
            maybe <==> exists|j: int| 0 <= j < it.index() && is_kanji(#[trigger] text@[j]),
    {
        if is_kana_char(c) {
            return IsJapanese::True;
        }
        if is_kanji_char(c) {
            maybe = true;
        }
    }
    if maybe {
        IsJapanese::Maybe
    } else {
        IsJapanese::False
    }
}

/// Calls `kakasi::convert` and keeps the romanised text. The result is named
/// by [`romaji`].
#[verifier::external_body]
fn to_romaji(text: &str) -> (r: String)
    ensures
        r@ == romaji(text@),
{
    kakasi::convert(text).romaji
}

/// Every character lies below U+007F, the last of the ASCII range.
pub open spec fn is_below_delete(s: Seq<char>) -> bool {
    forall|i: int| 0 <= i < s.len() ==> #[trigger] s[i] < '\u{7f}'
}

/// Calls `deunicode::deunicode`. The result is named by [`deunicoded`]. It is
/// pure ASCII, and a text of characters below U+007F comes back as it went
/// in; U+007F itself is looked up like any character beyond ASCII.
#[verifier::external_body]
fn to_ascii(text: &str) -> (r: String)
    ensures
        r@ == deunicoded(text@),
        is_ascii_text(r@),
        is_below_delete(text@) ==> r@ == text@,
{
    deunicode::deunicode(text)
}

/// The ASCII form of a text: a text of characters below U+007F itself, any
/// other text as deunicode transliterates it.
pub open spec fn transliterated(s: Seq<char>) -> Seq<char> {
    if is_below_delete(s) {
        s
    } else {
        deunicoded(s)
    }
}

/// Transliterates a text to ASCII.
pub fn transliterate(text: &str) -> (r: String)
    ensures
        r@ == transliterated(text@),
        is_ascii_text(r@),
{
    to_ascii(text)
}

/// Calls `fuzzywuzzy::fuzz::ratio`, which slices its arguments by byte and so
/// is given ASCII only. The result is named by [`ratio_of`]; it is a
/// percentage, and a text compared with itself scores 100.
#[verifier::external_body]
fn fuzz_ratio(a: &str, b: &str) -> (r: u8)
    requires
        is_ascii_text(a@),
        is_ascii_text(b@),
    ensures
        r == ratio_of(a@, b@),
        r <= 100,
        a@ == b@ ==> r == 100,
{
    fuzzywuzzy::fuzz::ratio(a, b)
}

/// Calls `fuzzywuzzy::fuzz::token_set_ratio` with ASCII forcing and full
/// processing switched on. The result is named by [`token_set_ratio_of`]; it
/// is a percentage, and a text compared with itself scores 100.
#[verifier::external_body]
pub(crate) fn fuzz_token_set_ratio(a: &str, b: &str) -> (r: u8)
    ensures
        r == token_set_ratio_of(a@, b@),
        r <= 100,
        a@ == b@ ==> r == 100,
{
    fuzzywuzzy::fuzz::token_set_ratio(a, b, true, true)
}

/// The romanised form of a text: the transliteration where the text holds
/// Japanese script, the text itself where it holds none.
pub open spec fn romanised(s: Seq<char>) -> Seq<char> {
    if script_of(s) == IsJapanese::False {
        s
    } else {
        romaji(s)
    }
}

/// Romanises `japanese` if it holds Japanese script and returns it unchanged
/// otherwise.
pub fn process_possible_japanese(japanese: &str) -> (r: String)
    ensures
        r@ == romanised(japanese@),
{
    match is_japanese(japanese) {
        IsJapanese::False => japanese.to_owned(),
        _ => to_romaji(japanese),
    }
}

/// Whether normalisation keeps a character: a letter, a digit or a space.
pub open spec fn is_kept(c: char) -> bool {
    is_alnum(c) || c == ' '
}

/// The test of [`is_kept`], as a function.
pub open spec fn kept() -> spec_fn(char) -> bool {
    |c: char| is_kept(c)
}

/// A text without the characters that normalisation drops.
pub open spec fn strip_symbols(s: Seq<char>) -> Seq<char> {
    s.filter(kept())
}

/// The normal form of a text: the text lowered, stripped of what is neither
/// letter nor digit nor space, and transliterated to ASCII.
pub open spec fn normalised(s: Seq<char>) -> Seq<char> {
    transliterated(strip_symbols(lowered(s)))
}

/// What is left of an ASCII text after lowering is plain once it is stripped.
pub proof fn lemma_strip_lowered_ascii(s: Seq<char>)
    requires
        is_ascii_text(s),
    ensures
        is_plain(strip_symbols(ascii_lowered(s))),
{
    let low = ascii_lowered(s);
    let out = strip_symbols(low);
    assert forall|i: int| 0 <= i < out.len() implies is_lower_or_digit(#[trigger] out[i])
        || out[i] == ' ' by {
        low.lemma_filter_pred(kept(), i);
        assert(low.filter(kept()).contains(out[i]));
        low.lemma_filter_contains_rev(kept(), out[i]);
        let j = choose|j: int| 0 <= j < low.len() && low[j] == out[i];
        assert(low[j] == ascii_lower(s[j]));
    }
}

/// A plain text is not changed by lowering, nor by stripping, nor by
/// transliterating.
pub proof fn lemma_plain_is_normal(s: Seq<char>)
    requires
        is_plain(s),
    ensures
        lowered(s) == s,
        strip_symbols(s) == s,
        transliterated(s) == s,
        normalised(s) == s,
{
    assert(is_ascii_text(s));
    assert(ascii_lowered(s) =~= s);
    lemma_all_kept(s);
    assert(is_below_delete(s));
}

/// A text of which every character is kept is not changed by stripping.
proof fn lemma_all_kept(s: Seq<char>)
    requires
        forall|i: int| 0 <= i < s.len() ==> is_kept(#[trigger] s[i]),
    ensures
        strip_symbols(s) == s,
    decreases s.len(),
{
    reveal(Seq::filter);
    if s.len() > 0 {
        let init = s.drop_last();
        assert forall|i: int| 0 <= i < init.len() implies is_kept(#[trigger] init[i]) by {
            assert(init[i] == s[i]);
        }
        lemma_all_kept(init);
        assert(init.push(s.last()) == s);
    } else {
        assert(s.filter(kept()) =~= s);
    }
}

/// The normal form of an ASCII text: its letters made small, its digits and
/// spaces kept, and everything else dropped. It is plain.
pub proof fn lemma_normalise_ascii(s: Seq<char>)
    requires
        is_ascii_text(s),
    ensures
        normalised(s) == strip_symbols(ascii_lowered(s)),
        is_plain(normalised(s)),
{
    lemma_strip_lowered_ascii(s);
    lemma_plain_is_normal(strip_symbols(ascii_lowered(s)));
}

/// Brings a text to its normal form for comparison.
pub fn normalize_text(text: &str) -> (r: String)
    ensures
        r@ == normalised(text@),
        is_ascii_text(r@),
        is_ascii_text(text@) ==> r@ == strip_symbols(ascii_lowered(text@)) && is_plain(r@),
        is_plain(text@) ==> r@ == text@,
{
    let low = lower(text);
    let mut stripped = String::new();
    for c in it: low.chars()
        invariant
            it.seq() == low@,
            stripped@ == strip_symbols(low@.take(it.index())),
    {
        proof {
            let done = low@.take(it.index());
            assert(low@.take(it.index() + 1) == done.push(c));
            done.lemma_filter_push(c, kept());
        }
        if is_alnum_char(c) || c == ' ' {
            push_char(&mut stripped, c);
        }
    }
    proof {
        assert(low@.take(low@.len() as int) == low@);
        if is_ascii_text(text@) {
            lemma_normalise_ascii(text@);
        }
        if is_plain(text@) {
            lemma_plain_is_normal(text@);
        }
    }
    transliterate(stripped.as_str())
}

/// Normalising a text whose normal form is plain a second time changes
/// nothing.
pub proof fn lemma_normalise_idempotent(s: Seq<char>)
    requires
        is_plain(normalised(s)),
    ensures
        normalised(normalised(s)) == normalised(s),
{
    lemma_plain_is_normal(normalised(s));
}

/// Normalising an ASCII text a second time changes nothing.
pub proof fn lemma_normalise_idempotent_ascii(s: Seq<char>)
    requires
        is_ascii_text(s),
    ensures
        normalised(normalised(s)) == normalised(s),
{
    lemma_normalise_ascii(s);
    lemma_plain_is_normal(normalised(s));
}

/// A text without Japanese script, pure ASCII in particular, is its own
/// romanised form.
pub proof fn lemma_romanise_ascii(s: Seq<char>)
    requires
        is_ascii_text(s),
    ensures
        script_of(s) == IsJapanese::False,
        romanised(s) == s,
{
}

/// The similarity of two texts: the ratio of their romanised normal forms.
pub open spec fn similarity_of(a: Seq<char>, b: Seq<char>) -> u8 {
    ratio_of(normalised(romanised(a)), normalised(romanised(b)))
}

/// Scores how alike two texts are, from 0 to 100, after romanising and
/// normalising both. A text scores 100 against itself.
pub fn process_similarity(japanese_text: &str, romaji_text: &str) -> (r: u8)
    ensures
        r == similarity_of(japanese_text@, romaji_text@),
        r <= 100,
        japanese_text@ == romaji_text@ ==> r == 100,
{
    let left = normalize_text(process_possible_japanese(japanese_text).as_str());
    let right = normalize_text(process_possible_japanese(romaji_text).as_str());
    fuzz_ratio(left.as_str(), right.as_str())
}

/// One of the ten ASCII vowel letters.
pub open spec fn is_vowel(c: char) -> bool {
    c == 'a' || c == 'e' || c == 'i' || c == 'o' || c == 'u' || c == 'A' || c == 'E' || c == 'I'
        || c == 'O' || c == 'U'
}

/// Whether `c` is one of the ten ASCII vowel letters.
pub fn is_vowel_char(c: char) -> (b: bool)
    ensures
        b == is_vowel(c),
{
    c == 'a' || c == 'e' || c == 'i' || c == 'o' || c == 'u' || c == 'A' || c == 'E' || c == 'I'
        || c == 'O' || c == 'U'
}

/// The characters of `word` that are vowels, or those that are not.
fn select_vowels(word: &str, vowels: bool) -> (r: String)
    ensures
        r@ == word@.filter(|c: char| is_vowel(c) == vowels),
{
    let mut r = String::new();
    for c in it: word.chars()
        invariant
            it.seq() == word@,
            r@ == word@.take(it.index()).filter(|c: char| is_vowel(c) == vowels),
    {
        proof {
            let next = word@.take(it.index() + 1);
            assert(next.drop_last() == word@.take(it.index()));
            assert(next.last() == c);
            reveal(Seq::filter);
        }
        if is_vowel_char(c) == vowels {
            push_char(&mut r, c);
        }
    }
    proof {
        assert(word@.take(word@.len() as int) == word@);
    }
    r
}

/// Drops the ASCII vowels from a word.
pub fn remove_vowels(word: &str) -> (r: String)
    ensures
        r@ == word@.filter(|c: char| !is_vowel(c)),
{
    let r = select_vowels(word, false);
    proof {
        assert((|c: char| is_vowel(c) == false) =~= (|c: char| !is_vowel(c)));
    }
    r
}

/// Keeps only the ASCII vowels of a word.
pub fn remove_consonants(word: &str) -> (r: String)
    ensures
        r@ == word@.filter(|c: char| is_vowel(c)),
{
    let r = select_vowels(word, true);
    proof {
        assert((|c: char| is_vowel(c) == true) =~= (|c: char| is_vowel(c)));
    }
    r
}

} // verus!
