//! Character classes, word splitting and string building on character
//! sequences.
use vstd::prelude::*;

verus! {

/// An ASCII letter `a-z` or `A-Z`.
pub open spec fn is_ascii_letter(c: char) -> bool {
    ('a' <= c && c <= 'z') || ('A' <= c && c <= 'Z')
}

/// A basic Cyrillic letter: `а-я`, `А-Я`, `ё` or `Ё`.
pub open spec fn is_cyrillic_letter(c: char) -> bool {
    ('а' <= c && c <= 'я') || ('А' <= c && c <= 'Я') || c == 'ё' || c == 'Ё'
}

/// The ASCII lowercase form of a character; other characters are kept.
pub open spec fn ascii_lower(c: char) -> char {
    if 'A' <= c && c <= 'Z' {
        ((c as u32) + 32) as char
    } else {
        c
    }
}

/// The ASCII lowercase form of every character of `s`.
pub open spec fn ascii_lower_seq(s: Seq<char>) -> Seq<char> {
    s.map_values(|c: char| ascii_lower(c))
}

/// Class of a character for ASCII words: `1` for an ASCII letter, `0` otherwise.
pub open spec fn ascii_word_class(c: char) -> int {
    if is_ascii_letter(c) { 1 } else { 0 }
}

/// Class of a character for letter words: `1` for an ASCII letter, `2` for a
/// basic Cyrillic letter, `0` otherwise.
pub open spec fn letter_word_class(c: char) -> int {
    if is_ascii_letter(c) { 1 } else if is_cyrillic_letter(c) { 2 } else { 0 }
}

/// The maximal runs of characters of one nonzero class, left to right.
/// Characters of class `0` separate runs; a change of class ends a run.
pub open spec fn runs(s: Seq<char>, cls: spec_fn(char) -> int) -> Seq<Seq<char>>
    decreases s.len(),
{
    if s.len() == 0 {
        seq![]
    } else {
        let prev = runs(s.drop_last(), cls);
        let c = s.last();
        if cls(c) == 0 {
            prev
        } else if s.len() >= 2 && cls(s[s.len() - 2]) == cls(c) && prev.len() > 0 {
            prev.update(prev.len() - 1, prev.last().push(c))
        } else {
            prev.push(seq![c])
        }
    }
}

/// The ASCII words of `s`: maximal runs of ASCII letters.
pub open spec fn ascii_words(s: Seq<char>) -> Seq<Seq<char>> {
    runs(s, |c: char| ascii_word_class(c))
}

/// The letter words of `s`: maximal runs of ASCII letters or of basic
/// Cyrillic letters.
pub open spec fn letter_words(s: Seq<char>) -> Seq<Seq<char>> {
    runs(s, |c: char| letter_word_class(c))
}

/// The views of a sequence of strings.
pub open spec fn string_views(v: Seq<String>) -> Seq<Seq<char>> {
    v.map_values(|w: String| w@)
}

/// Words of one class: a nonempty sequence whose characters all have the
/// same nonzero class is its own only run.
pub proof fn lemma_runs_single(s: Seq<char>, cls: spec_fn(char) -> int, k: int)
    requires
        s.len() > 0,
        k != 0,
        forall|i: int| 0 <= i < s.len() ==> cls(#[trigger] s[i]) == k,
    ensures
        runs(s, cls) == seq![s],
    decreases s.len(),
{
    if s.len() == 1 {
        assert(s.drop_last() =~= Seq::<char>::empty());
        assert(runs(s.drop_last(), cls) == Seq::<Seq<char>>::empty());
        assert(seq![s[0]] =~= s);
    } else {
        let p = s.drop_last();
        assert forall|i: int| 0 <= i < p.len() implies cls(#[trigger] p[i]) == k by {
            assert(p[i] == s[i]);
        }
        lemma_runs_single(p, cls, k);
        assert(cls(s[s.len() - 2]) == k);
        assert(p.push(s.last()) =~= s);
    }
}

/// The error of compiling a regular expression.
#[verifier::external_type_specification]
#[verifier::external_body]
pub struct ExRegexError(regex::Error);

/// The texts of the successive non-overlapping leftmost-first matches of
/// the regular expression `pattern` in `s`, or `None` when the pattern does
/// not compile: what the `regex` crate computes from the two texts alone.
pub uninterp spec fn regex_find_all(pattern: Seq<char>, s: Seq<char>) -> Option<Seq<Seq<char>>>;

/// Compiles `pattern` (`regex::Regex::new`) and collects the texts of its
/// matches in `s` (`Regex::find_iter`). The result is named by
/// [`regex_find_all`]; for the two patterns the library uses, the `regex`
/// documentation (leftmost-first alternation, greedy repetition) makes the
/// matches the maximal runs of one letter class, as stated.
#[verifier::external_body]
fn regex_matches(pattern: &str, s: &str) -> (r: Result<Vec<String>, regex::Error>)
    ensures
        r matches Ok(v) ==> regex_find_all(pattern@, s@) == Some(string_views(v@)),
        r is Err ==> regex_find_all(pattern@, s@) is None,
        r is Err ==> pattern@ != "[a-zA-Z]+"@ && pattern@ != "[a-zA-Z]+|[а-яА-ЯёЁ]+"@,
        r matches Ok(v) ==> (pattern@ == "[a-zA-Z]+"@ ==> string_views(v@) == ascii_words(s@)),
        r matches Ok(v) ==> (pattern@ == "[a-zA-Z]+|[а-яА-ЯёЁ]+"@ ==> string_views(v@)
            == letter_words(s@)),
{
    let re = regex::Regex::new(pattern)?;
    Ok(re.find_iter(s).map(|m| m.as_str().to_string()).collect())
}

/// The ASCII words of `s`, each as a `String`.
pub(crate) fn regex_ascii_words(s: &str) -> (r: Vec<String>)
    ensures
        string_views(r@) == ascii_words(s@),
{
    match regex_matches("[a-zA-Z]+", s) {
        Ok(v) => v,
        Err(_) => Vec::new(),
    }
}

/// The letter words of `s` (ASCII or basic Cyrillic), each as a `String`.
pub(crate) fn regex_letter_words(s: &str) -> (r: Vec<String>)
    ensures
        string_views(r@) == letter_words(s@),
{
    match regex_matches("[a-zA-Z]+|[а-яА-ЯёЁ]+", s) {
        Ok(v) => v,
        Err(_) => Vec::new(),
    }
}

/// Appends a character to a `String` (`String::push`).
#[verifier::external_body]
pub(crate) fn push_char(s: &mut String, c: char)
    ensures
        final(s)@ == old(s)@.push(c),
{
    s.push(c);
}

/// The characters of a string slice.
pub fn chars_of(s: &str) -> (r: Vec<char>)
    ensures
        r@ == s@,
{
    let mut v: Vec<char> = Vec::new();
    for c in it: s.chars()
        invariant
            v@ == it.seq().take(it.index() as int),
            it.seq() == s@,
    {
        v.push(c);
    }
    v
}

/// A `String` made of the given characters.
pub fn string_of(cs: &[char]) -> (r: String)
    ensures
        r@ == cs@,
{
    let mut s = String::new();
    let mut i: usize = 0;
    while i < cs.len()
        invariant
            i <= cs.len(),
            s@ == cs@.take(i as int),
        decreases cs.len() - i,
    {
        push_char(&mut s, cs[i]);
        assert(cs@.take(i as int).push(cs@[i as int]) =~= cs@.take(i + 1));
        i = i + 1;
    }
    assert(cs@.take(cs.len() as int) =~= cs@);
    s
}

/// ASCII lowercase of one character.
pub fn lower_ascii_char(c: char) -> (r: char)
    ensures
        r == ascii_lower(c),
{
    if 'A' <= c && c <= 'Z' {
        ((c as u8) + 32) as char
    } else {
        c
    }
}

/// The ASCII uppercase form of a character; other characters are kept.
pub open spec fn ascii_upper(c: char) -> char {
    if 'a' <= c && c <= 'z' {
        ((c as u32) - 32) as char
    } else {
        c
    }
}

/// The ASCII uppercase form of every character of `s`.
pub open spec fn ascii_upper_seq(s: Seq<char>) -> Seq<char> {
    s.map_values(|c: char| ascii_upper(c))
}

/// Runs of a text whose characters are each replaced by one of the same
/// class are the runs of the text, each so replaced.
pub proof fn lemma_runs_map(s: Seq<char>, cls: spec_fn(char) -> int, f: spec_fn(char) -> char)
    requires
        forall|c: char| #[trigger] cls(f(c)) == cls(c),
    ensures
        runs(s.map_values(f), cls) == runs(s, cls).map_values(|w: Seq<char>| w.map_values(f)),
    decreases s.len(),
{
    let t = s.map_values(f);
    let g = |w: Seq<char>| w.map_values(f);
    if s.len() == 0 {
        assert(runs(s, cls).map_values(g) =~= Seq::<Seq<char>>::empty());
    } else {
        assert(t.drop_last() =~= s.drop_last().map_values(f));
        lemma_runs_map(s.drop_last(), cls, f);
        let ps = runs(s.drop_last(), cls);
        let pt = runs(t.drop_last(), cls);
        assert(pt == ps.map_values(g));
        let c = s.last();
        assert(t.last() == f(c));
        assert(cls(f(c)) == cls(c));
        if s.len() >= 2 {
            assert(t[t.len() - 2] == f(s[s.len() - 2]));
            assert(cls(f(s[s.len() - 2])) == cls(s[s.len() - 2]));
        }
        if cls(c) == 0 {
        } else if s.len() >= 2 && cls(s[s.len() - 2]) == cls(c) && ps.len() > 0 {
            let rs = ps.update(ps.len() - 1, ps.last().push(c));
            assert(g(ps.last().push(c)) =~= pt.last().push(f(c)));
            assert(runs(t, cls) =~= rs.map_values(g));
        } else {
            assert(g(seq![c]) =~= seq![f(c)]);
            assert(runs(t, cls) =~= ps.push(seq![c]).map_values(g));
        }
    }
}

} // verus!
