//! Language detection from text and the [`Lang`] value of a stream.
use vstd::prelude::*;
use crate::error::MuxError;
use crate::lang_table::{
    LangCode, code_of_duo, code_of_triple, spec_code_chars, spec_code_of_duo,
    spec_code_of_triple,
};
use crate::text::{
    ascii_lower, ascii_lower_seq, ascii_upper, ascii_upper_seq, ascii_words, chars_of,
    is_ascii_letter, lemma_runs_map, lemma_runs_single, lower_ascii_char, regex_ascii_words,
    string_of, string_views,
};

verus! {

/// The language whose code is the word `w` (already in lowercase): two-letter
/// and three-letter words are looked up, other words name no language.
pub open spec fn spec_code_of_word(w: Seq<char>) -> Option<LangCode> {
    if w.len() == 2 {
        spec_code_of_duo(w[0], w[1])
    } else if w.len() == 3 {
        spec_code_of_triple(w[0], w[1], w[2])
    } else {
        None
    }
}

/// The language of the first word of `ws` that, in ASCII lowercase, is a
/// language code.
pub open spec fn first_code(ws: Seq<Seq<char>>) -> Option<LangCode>
    decreases ws.len(),
{
    if ws.len() == 0 {
        None
    } else {
        match spec_code_of_word(ascii_lower_seq(ws[0])) {
            Some(c) => Some(c),
            None => first_code(ws.drop_first()),
        }
    }
}

/// The language found in a text: the first ASCII word of it that is a
/// language code.
pub open spec fn spec_get_code(s: Seq<char>) -> Option<LangCode> {
    first_code(ascii_words(s))
}

/// A language has a two-letter code: every language of the table but the
/// undetermined one.
pub open spec fn spec_has_duo_code(c: LangCode) -> bool {
    c != LangCode::Und
}

/// The language of the first word of `ws` whose language has a two-letter
/// code.
pub open spec fn first_duo_code(ws: Seq<Seq<char>>) -> Option<LangCode>
    decreases ws.len(),
{
    if ws.len() == 0 {
        None
    } else {
        match spec_code_of_word(ascii_lower_seq(ws[0])) {
            Some(c) if spec_has_duo_code(c) => Some(c),
            _ => first_duo_code(ws.drop_first()),
        }
    }
}

/// The language of the last word of `ws` whose language has no two-letter
/// code.
pub open spec fn last_plain_code(ws: Seq<Seq<char>>) -> Option<LangCode>
    decreases ws.len(),
{
    if ws.len() == 0 {
        None
    } else {
        match spec_code_of_word(ascii_lower_seq(ws.last())) {
            Some(c) if !spec_has_duo_code(c) => Some(c),
            _ => last_plain_code(ws.drop_last()),
        }
    }
}

/// The language chosen from words by priority: a language with a two-letter
/// code as soon as one is found, otherwise the last other language found.
pub open spec fn spec_priority_code(ws: Seq<Seq<char>>) -> Option<LangCode> {
    match first_duo_code(ws) {
        Some(c) => Some(c),
        None => last_plain_code(ws),
    }
}

/// The three-letter code of a language as a character sequence.
pub open spec fn spec_code_str(c: LangCode) -> Seq<char> {
    seq![spec_code_chars(c).0, spec_code_chars(c).1, spec_code_chars(c).2]
}

impl LangCode {
    /// The default language: undetermined.
    pub fn default_code() -> (r: LangCode)
        ensures
            r == LangCode::Und,
    {
        LangCode::Und
    }

    /// `true` for the undetermined language.
    pub fn is_default(self) -> (r: bool)
        ensures
            r == (self == LangCode::Und),
    {
        match self {
            LangCode::Und => true,
            _ => false,
        }
    }

    /// `true` if the language has a two-letter code.
    pub fn has_duo_code(self) -> (r: bool)
        ensures
            r == spec_has_duo_code(self),
    {
        !self.is_default()
    }

    /// The three-letter code of the language, as it is displayed.
    pub fn to_code_string(self) -> (r: String)
        ensures
            r@ == spec_code_str(self),
    {
        let (a, b, c) = self.code_chars();
        let cs = [a, b, c];
        let r = string_of(&cs);
        assert(r@ =~= spec_code_str(self));
        r
    }

    /// The language whose code is the word `w`, compared in ASCII lowercase.
    pub fn code_of_word(w: &[char]) -> (r: Option<LangCode>)
        ensures
            r == spec_code_of_word(ascii_lower_seq(w@)),
    {
        if w.len() == 2 {
            code_of_duo(lower_ascii_char(w[0]), lower_ascii_char(w[1]))
        } else if w.len() == 3 {
            code_of_triple(lower_ascii_char(w[0]), lower_ascii_char(w[1]), lower_ascii_char(w[2]))
        } else {
            None
        }
    }

    /// The language named in a text: the first ASCII word of it that is a
    /// two-letter or three-letter language code (in any case).
    pub fn get(s: &str) -> (r: Option<LangCode>)
        ensures
            r == spec_get_code(s@),
    {
        let words = regex_ascii_words(s);
        let ghost ws = string_views(words@);
        assert(ws.skip(0) =~= ws);
        let mut i: usize = 0;
        while i < words.len()
            invariant
                ws == string_views(words@),
                ws == ascii_words(s@),
                i <= words.len(),
                first_code(ws) == first_code(ws.skip(i as int)),
            decreases words.len() - i,
        {
            let w = chars_of(words[i].as_str());
            assert(w@ == ws[i as int]);
            assert(ws.skip(i as int)[0] == ws[i as int]);
            assert(ws.skip(i as int).drop_first() =~= ws.skip(i + 1));
            match LangCode::code_of_word(w.as_slice()) {
                Some(c) => {
                    return Some(c);
                },
                None => {},
            }
            i = i + 1;
        }
        assert(ws.skip(i as int) =~= Seq::<Seq<char>>::empty());
        None
    }

    /// Parses a language from a text, as [`LangCode::get`] does.
    ///
    /// # Errors
    ///
    /// When no word of the text is a language code.
    pub fn from_str(s: &str) -> (r: Result<LangCode, MuxError>)
        ensures
            r matches Ok(c) ==> spec_get_code(s@) == Some(c),
            r is Err <==> spec_get_code(s@) is None,
            r matches Err(e) ==> e.has_message("Not found a valid language code"@),
    {
        match LangCode::get(s) {
            Some(c) => Ok(c),
            None => Err(MuxError::from_str_msg("Not found a valid language code")),
        }
    }

    /// The language of the user's locale: the first locale variable that is
    /// set (in the order given) is searched for a language code, and the
    /// language is undetermined when it names none or no variable is set.
    pub fn from_locale(vars: &[Option<String>]) -> (r: LangCode)
        ensures
            (exists|i: int| 0 <= i < vars@.len() && #[trigger] vars@[i] is Some) ==> {
                let k = choose|i: int| 0 <= i < vars@.len() && #[trigger] vars@[i] is Some
                    && forall|j: int| 0 <= j < i ==> vars@[j] is None;
                r == match spec_get_code(vars@[k]->0@) {
                    Some(c) => c,
                    None => LangCode::Und,
                }
            },
            (forall|i: int| 0 <= i < vars@.len() ==> #[trigger] vars@[i] is None) ==> r
                == LangCode::Und,
    {
        let mut i: usize = 0;
        while i < vars.len()
            invariant
                i <= vars.len(),
                forall|j: int| 0 <= j < i ==> vars@[j] is None,
            decreases vars.len() - i,
        {
            match &vars[i] {
                Some(v) => {
                    let ghost k = choose|k: int| 0 <= k < vars@.len() && #[trigger] vars@[k] is Some
                        && forall|j: int| 0 <= j < k ==> vars@[j] is None;
                    assert(0 <= i < vars@.len() && vars@[i as int] is Some && forall|j: int|
                        0 <= j < i ==> vars@[j] is None);
                    assert(k == i) by {
                        if k < i {
                            assert(vars@[k] is None);
                        } else if k > i {
                            assert(vars@[i as int] is None);
                        }
                    }
                    return match LangCode::get(v.as_str()) {
                        Some(c) => c,
                        None => LangCode::Und,
                    };
                },
                None => {},
            }
            i = i + 1;
        }
        LangCode::Und
    }

    /// The language chosen from words by priority: the first word that names
    /// a language with a two-letter code wins; otherwise the last word that
    /// names any other language.
    ///
    /// # Errors
    ///
    /// When no word names a language.
    pub fn try_priority(words: &[String]) -> (r: Result<LangCode, MuxError>)
        ensures
            r matches Ok(c) ==> spec_priority_code(string_views(words@)) == Some(c),
            r is Err <==> spec_priority_code(string_views(words@)) is None,
            r matches Err(e) ==> e.has_message("Not found any language code"@),
    {
        let ghost ws = string_views(words@);
        assert(ws.skip(0) =~= ws);
        assert(ws.take(0) =~= Seq::<Seq<char>>::empty());
        let mut unpriority: Option<LangCode> = None;
        let mut i: usize = 0;
        while i < words.len()
            invariant
                ws == string_views(words@),
                i <= words.len(),
                first_duo_code(ws) == first_duo_code(ws.skip(i as int)),
                unpriority == last_plain_code(ws.take(i as int)),
            decreases words.len() - i,
        {
            let w = chars_of(words[i].as_str());
            assert(w@ == ws[i as int]);
            assert(ws.skip(i as int)[0] == ws[i as int]);
            assert(ws.skip(i as int).drop_first() =~= ws.skip(i + 1));
            assert(ws.take(i + 1).drop_last() =~= ws.take(i as int));
            assert(ws.take(i + 1).last() == ws[i as int]);
            match LangCode::code_of_word(w.as_slice()) {
                Some(c) => {
                    if c.has_duo_code() {
                        return Ok(c);
                    }
                    unpriority = Some(c);
                },
                None => {},
            }
            i = i + 1;
        }
        assert(ws.skip(i as int) =~= Seq::<Seq<char>>::empty());
        assert(ws.take(i as int) =~= ws);
        match unpriority {
            Some(c) => Ok(c),
            None => Err(MuxError::from_str_msg("Not found any language code")),
        }
    }
}

/// A language of a stream: a known language code, or any other text.
#[derive(Debug)]
pub enum Lang {
    Code(LangCode),
    Other(String),
}

/// The abstract value of a [`Lang`].
pub enum LangView {
    Code(LangCode),
    Other(Seq<char>),
}

impl View for Lang {
    type V = LangView;

    open spec fn view(&self) -> LangView {
        match self {
            Lang::Code(c) => LangView::Code(*c),
            Lang::Other(o) => LangView::Other(o@),
        }
    }
}

/// The language read from a text: the language it names, or the text.
pub open spec fn spec_lang_of(s: Seq<char>) -> LangView {
    match spec_get_code(s) {
        Some(c) => LangView::Code(c),
        None => LangView::Other(s),
    }
}

impl Lang {
    /// The language named in `s`, or `s` itself when it names none.
    pub fn new(s: &str) -> (r: Lang)
        ensures
            spec_get_code(s@) matches Some(c) ==> r == Lang::Code(c),
            spec_get_code(s@) is None ==> (r matches Lang::Other(o) && o@ == s@),
            r@ == spec_lang_of(s@),
    {
        match LangCode::get(s) {
            Some(c) => Lang::Code(c),
            None => Lang::Other(s.to_owned()),
        }
    }

    /// The default language: the undetermined code.
    pub fn default_lang() -> (r: Lang)
        ensures
            r == Lang::Code(LangCode::Und),
    {
        Lang::Code(LangCode::Und)
    }

    /// `true` for the undetermined code.
    pub fn is_default(&self) -> (r: bool)
        ensures
            r == (*self == Lang::Code(LangCode::Und)),
    {
        match self {
            Lang::Code(c) => c.is_default(),
            Lang::Other(_) => false,
        }
    }

    /// The text of the language: its three-letter code, or the other text.
    pub fn to_display_string(&self) -> (r: String)
        ensures
            *self matches Lang::Code(c) ==> r@ == spec_code_str(c),
            *self matches Lang::Other(o) ==> r@ == o@,
    {
        match self {
            Lang::Code(c) => c.to_code_string(),
            Lang::Other(o) => o.clone(),
        }
    }
}

/// Law: a language written by its code is read back as the same language.
pub proof fn lemma_code_roundtrip(c: LangCode)
    ensures
        spec_get_code(spec_code_str(c)) == Some(c),
{
    lemma_code_chars_lower_letters(c);
    let s = spec_code_str(c);
    lemma_runs_single(s, |ch: char| crate::text::ascii_word_class(ch), 1);
    assert(ascii_words(s) == seq![s]);
    assert(ascii_lower_seq(s) =~= s);
    assert(seq![s].drop_first() =~= Seq::<Seq<char>>::empty());
    lemma_code_of_own_triple(c);
}

/// Law: a word of two or three ASCII letters, in any case, names the
/// language whose code it is in lowercase.
pub proof fn lemma_get_code_of_code_word(w: Seq<char>)
    requires
        2 <= w.len() <= 3,
        forall|i: int| 0 <= i < w.len() ==> is_ascii_letter(#[trigger] w[i]),
    ensures
        spec_get_code(w) == spec_code_of_word(ascii_lower_seq(w)),
{
    lemma_runs_single(w, |ch: char| crate::text::ascii_word_class(ch), 1);
    assert(ascii_words(w) == seq![w]);
    assert(seq![w].drop_first() =~= Seq::<Seq<char>>::empty());
    assert(first_code(Seq::<Seq<char>>::empty()) is None);
    assert(seq![w][0] == w);
}

/// Law: every two-letter code of the language table, in lowercase or in
/// uppercase, names the language of its row.
pub proof fn lemma_duo_code_names_language(a: char, b: char)
    requires
        spec_code_of_duo(a, b) is Some,
    ensures
        spec_get_code(seq![a, b]) == spec_code_of_duo(a, b),
        spec_get_code(ascii_upper_seq(seq![a, b])) == spec_code_of_duo(a, b),
{
    assert('a' <= a <= 'z' && 'a' <= b <= 'z');
    let w = seq![a, b];
    assert(ascii_lower_seq(w) =~= w);
    lemma_get_code_of_code_word(w);
    lemma_get_code_upper(w);
}

/// Law: every three-letter code of the language table (a language's own
/// code or its other one), in lowercase or in uppercase, names the language
/// of its row.
pub proof fn lemma_triple_code_names_language(a: char, b: char, c: char)
    requires
        spec_code_of_triple(a, b, c) is Some,
    ensures
        spec_get_code(seq![a, b, c]) == spec_code_of_triple(a, b, c),
        spec_get_code(ascii_upper_seq(seq![a, b, c])) == spec_code_of_triple(a, b, c),
{
    assert('a' <= a <= 'z' && 'a' <= b <= 'z' && 'a' <= c <= 'z');
    let w = seq![a, b, c];
    assert(ascii_lower_seq(w) =~= w);
    lemma_get_code_of_code_word(w);
    lemma_get_code_upper(w);
}

/// Replacing characters by others with the same lowercase form keeps the
/// first language code of words.
proof fn lemma_first_code_map(ws: Seq<Seq<char>>, f: spec_fn(char) -> char)
    requires
        forall|c: char| #[trigger] ascii_lower(f(c)) == ascii_lower(c),
    ensures
        first_code(ws.map_values(|w: Seq<char>| w.map_values(f))) == first_code(ws),
    decreases ws.len(),
{
    let g = |w: Seq<char>| w.map_values(f);
    let vs = ws.map_values(g);
    if ws.len() > 0 {
        assert(ascii_lower_seq(vs[0]) =~= ascii_lower_seq(ws[0]));
        assert(vs.drop_first() =~= ws.drop_first().map_values(g));
        lemma_first_code_map(ws.drop_first(), f);
    }
}

/// Law: a text and its ASCII uppercase form name the same language.
pub proof fn lemma_get_code_upper(s: Seq<char>)
    ensures
        spec_get_code(ascii_upper_seq(s)) == spec_get_code(s),
{
    let f = |c: char| ascii_upper(c);
    let cls = |ch: char| crate::text::ascii_word_class(ch);
    assert forall|c: char| #[trigger] cls(f(c)) == cls(c) && ascii_lower(f(c)) == ascii_lower(c) by {
        if 'a' <= c && c <= 'z' {
            assert('A' <= f(c) && f(c) <= 'Z');
            assert(((f(c) as u32) + 32) as char == c);
        }
    }
    assert(ascii_upper_seq(s) =~= s.map_values(f));
    lemma_runs_map(s, cls, f);
    lemma_first_code_map(ascii_words(s), f);
}

/// The code letters of every language are lowercase ASCII letters.
pub proof fn lemma_code_chars_lower_letters(c: LangCode)
    ensures
        'a' <= spec_code_chars(c).0 <= 'z',
        'a' <= spec_code_chars(c).1 <= 'z',
        'a' <= spec_code_chars(c).2 <= 'z',
{
}

/// The three-letter code of every language looks up that language.
pub proof fn lemma_code_of_own_triple(c: LangCode)
    ensures
        spec_code_of_triple(spec_code_chars(c).0, spec_code_chars(c).1, spec_code_chars(c).2)
            == Some(c),
{
}

/// Law: a language has a two-letter code exactly when some two-letter code
/// looks it up; only the undetermined language has none.
pub proof fn lemma_has_duo_code(c: LangCode)
    ensures
        spec_has_duo_code(c) <==> exists|a: char, b: char| spec_code_of_duo(a, b) == Some(c),
{
    match c {
        LangCode::Und => {
            if exists|a: char, b: char| spec_code_of_duo(a, b) == Some(c) {
                let (a, b) = choose|a: char, b: char| spec_code_of_duo(a, b) == Some(c);
                assert(spec_code_of_duo(a, b) != Some(LangCode::Und));
            }
        },
        LangCode::Aar => {
            assert(spec_code_of_duo('a', 'a') == Some(c));
        },
        LangCode::Abk => {
            assert(spec_code_of_duo('a', 'b') == Some(c));
        },
        LangCode::Afr => {
            assert(spec_code_of_duo('a', 'f') == Some(c));
        },
        LangCode::Aka => {
            assert(spec_code_of_duo('a', 'k') == Some(c));
        },
        LangCode::Alb => {
            assert(spec_code_of_duo('s', 'q') == Some(c));
        },
        LangCode::Amh => {
            assert(spec_code_of_duo('a', 'm') == Some(c));
        },
        LangCode::Ara => {
            assert(spec_code_of_duo('a', 'r') == Some(c));
        },
        LangCode::Arg => {
            assert(spec_code_of_duo('a', 'n') == Some(c));
        },
        LangCode::Arm => {
            assert(spec_code_of_duo('h', 'y') == Some(c));
        },
        LangCode::Asm => {
            assert(spec_code_of_duo('a', 's') == Some(c));
        },
        LangCode::Ava => {
            assert(spec_code_of_duo('a', 'v') == Some(c));
        },
        LangCode::Ave => {
            assert(spec_code_of_duo('a', 'e') == Some(c));
        },
        LangCode::Aym => {
            assert(spec_code_of_duo('a', 'y') == Some(c));
        },
        LangCode::Aze => {
            assert(spec_code_of_duo('a', 'z') == Some(c));
        },
        LangCode::Bak => {
            assert(spec_code_of_duo('b', 'a') == Some(c));
        },
        LangCode::Bam => {
            assert(spec_code_of_duo('b', 'm') == Some(c));
        },
        LangCode::Baq => {
            assert(spec_code_of_duo('e', 'u') == Some(c));
        },
        LangCode::Bel => {
            assert(spec_code_of_duo('b', 'e') == Some(c));
        },
        LangCode::Ben => {
            assert(spec_code_of_duo('b', 'n') == Some(c));
        },
        LangCode::Bis => {
            assert(spec_code_of_duo('b', 'i') == Some(c));
        },
        LangCode::Bos => {
            assert(spec_code_of_duo('b', 's') == Some(c));
        },
        LangCode::Bre => {
            assert(spec_code_of_duo('b', 'r') == Some(c));
        },
        LangCode::Bul => {
            assert(spec_code_of_duo('b', 'g') == Some(c));
        },
        LangCode::Bur => {
            assert(spec_code_of_duo('m', 'y') == Some(c));
        },
        LangCode::Cat => {
            assert(spec_code_of_duo('c', 'a') == Some(c));
        },
        LangCode::Cha => {
            assert(spec_code_of_duo('c', 'h') == Some(c));
        },
        LangCode::Che => {
            assert(spec_code_of_duo('c', 'e') == Some(c));
        },
        LangCode::Chi => {
            assert(spec_code_of_duo('z', 'h') == Some(c));
        },
        LangCode::Chu => {
            assert(spec_code_of_duo('c', 'u') == Some(c));
        },
        LangCode::Chv => {
            assert(spec_code_of_duo('c', 'v') == Some(c));
        },
        LangCode::Cor => {
            assert(spec_code_of_duo('k', 'w') == Some(c));
        },
        LangCode::Cos => {
            assert(spec_code_of_duo('c', 'o') == Some(c));
        },
        LangCode::Cre => {
            assert(spec_code_of_duo('c', 'r') == Some(c));
        },
        LangCode::Cze => {
            assert(spec_code_of_duo('c', 's') == Some(c));
        },
        LangCode::Dan => {
            assert(spec_code_of_duo('d', 'a') == Some(c));
        },
        LangCode::Div => {
            assert(spec_code_of_duo('d', 'v') == Some(c));
        },
        LangCode::Dut => {
            assert(spec_code_of_duo('n', 'l') == Some(c));
        },
        LangCode::Dzo => {
            assert(spec_code_of_duo('d', 'z') == Some(c));
        },
        LangCode::Eng => {
            assert(spec_code_of_duo('e', 'n') == Some(c));
        },
        LangCode::Epo => {
            assert(spec_code_of_duo('e', 'o') == Some(c));
        },
        LangCode::Est => {
            assert(spec_code_of_duo('e', 't') == Some(c));
        },
        LangCode::Ewe => {
            assert(spec_code_of_duo('e', 'e') == Some(c));
        },
        LangCode::Fao => {
            assert(spec_code_of_duo('f', 'o') == Some(c));
        },
        LangCode::Fij => {
            assert(spec_code_of_duo('f', 'j') == Some(c));
        },
        LangCode::Fin => {
            assert(spec_code_of_duo('f', 'i') == Some(c));
        },
        LangCode::Fre => {
            assert(spec_code_of_duo('f', 'r') == Some(c));
        },
        LangCode::Fry => {
            assert(spec_code_of_duo('f', 'y') == Some(c));
        },
        LangCode::Ful => {
            assert(spec_code_of_duo('f', 'f') == Some(c));
        },
        LangCode::Geo => {
            assert(spec_code_of_duo('k', 'a') == Some(c));
        },
        LangCode::Ger => {
            assert(spec_code_of_duo('d', 'e') == Some(c));
        },
        LangCode::Gla => {
            assert(spec_code_of_duo('g', 'd') == Some(c));
        },
        LangCode::Gle => {
            assert(spec_code_of_duo('g', 'a') == Some(c));
        },
        LangCode::Glg => {
            assert(spec_code_of_duo('g', 'l') == Some(c));
        },
        LangCode::Glv => {
            assert(spec_code_of_duo('g', 'v') == Some(c));
        },
        LangCode::Gre => {
            assert(spec_code_of_duo('e', 'l') == Some(c));
        },
        LangCode::Grn => {
            assert(spec_code_of_duo('g', 'n') == Some(c));
        },
        LangCode::Guj => {
            assert(spec_code_of_duo('g', 'u') == Some(c));
        },
        LangCode::Hat => {
            assert(spec_code_of_duo('h', 't') == Some(c));
        },
        LangCode::Hau => {
            assert(spec_code_of_duo('h', 'a') == Some(c));
        },
        LangCode::Hbs => {
            assert(spec_code_of_duo('s', 'h') == Some(c));
        },
        LangCode::Heb => {
            assert(spec_code_of_duo('h', 'e') == Some(c));
        },
        LangCode::Her => {
            assert(spec_code_of_duo('h', 'z') == Some(c));
        },
        LangCode::Hin => {
            assert(spec_code_of_duo('h', 'i') == Some(c));
        },
        LangCode::Hmo => {
            assert(spec_code_of_duo('h', 'o') == Some(c));
        },
        LangCode::Hrv => {
            assert(spec_code_of_duo('h', 'r') == Some(c));
        },
        LangCode::Hun => {
            assert(spec_code_of_duo('h', 'u') == Some(c));
        },
        LangCode::Ibo => {
            assert(spec_code_of_duo('i', 'g') == Some(c));
        },
        LangCode::Ice => {
            assert(spec_code_of_duo('i', 's') == Some(c));
        },
        LangCode::Ido => {
            assert(spec_code_of_duo('i', 'o') == Some(c));
        },
        LangCode::Iii => {
            assert(spec_code_of_duo('i', 'i') == Some(c));
        },
        LangCode::Iku => {
            assert(spec_code_of_duo('i', 'u') == Some(c));
        },
        LangCode::Ile => {
            assert(spec_code_of_duo('i', 'e') == Some(c));
        },
        LangCode::Ina => {
            assert(spec_code_of_duo('i', 'a') == Some(c));
        },
        LangCode::Ind => {
            assert(spec_code_of_duo('i', 'd') == Some(c));
        },
        LangCode::Ipk => {
            assert(spec_code_of_duo('i', 'k') == Some(c));
        },
        LangCode::Ita => {
            assert(spec_code_of_duo('i', 't') == Some(c));
        },
        LangCode::Jav => {
            assert(spec_code_of_duo('j', 'v') == Some(c));
        },
        LangCode::Jpn => {
            assert(spec_code_of_duo('j', 'a') == Some(c));
        },
        LangCode::Kal => {
            assert(spec_code_of_duo('k', 'l') == Some(c));
        },
        LangCode::Kan => {
            assert(spec_code_of_duo('k', 'n') == Some(c));
        },
        LangCode::Kas => {
            assert(spec_code_of_duo('k', 's') == Some(c));
        },
        LangCode::Kau => {
            assert(spec_code_of_duo('k', 'r') == Some(c));
        },
        LangCode::Kaz => {
            assert(spec_code_of_duo('k', 'k') == Some(c));
        },
        LangCode::Khm => {
            assert(spec_code_of_duo('k', 'm') == Some(c));
        },
        LangCode::Kik => {
            assert(spec_code_of_duo('k', 'i') == Some(c));
        },
        LangCode::Kin => {
            assert(spec_code_of_duo('r', 'w') == Some(c));
        },
        LangCode::Kir => {
            assert(spec_code_of_duo('k', 'y') == Some(c));
        },
        LangCode::Kom => {
            assert(spec_code_of_duo('k', 'v') == Some(c));
        },
        LangCode::Kon => {
            assert(spec_code_of_duo('k', 'g') == Some(c));
        },
        LangCode::Kor => {
            assert(spec_code_of_duo('k', 'o') == Some(c));
        },
        LangCode::Kua => {
            assert(spec_code_of_duo('k', 'j') == Some(c));
        },
        LangCode::Kur => {
            assert(spec_code_of_duo('k', 'u') == Some(c));
        },
        LangCode::Lao => {
            assert(spec_code_of_duo('l', 'o') == Some(c));
        },
        LangCode::Lat => {
            assert(spec_code_of_duo('l', 'a') == Some(c));
        },
        LangCode::Lav => {
            assert(spec_code_of_duo('l', 'v') == Some(c));
        },
        LangCode::Lim => {
            assert(spec_code_of_duo('l', 'i') == Some(c));
        },
        LangCode::Lin => {
            assert(spec_code_of_duo('l', 'n') == Some(c));
        },
        LangCode::Lit => {
            assert(spec_code_of_duo('l', 't') == Some(c));
        },
        LangCode::Ltz => {
            assert(spec_code_of_duo('l', 'b') == Some(c));
        },
        LangCode::Lub => {
            assert(spec_code_of_duo('l', 'u') == Some(c));
        },
        LangCode::Lug => {
            assert(spec_code_of_duo('l', 'g') == Some(c));
        },
        LangCode::Mac => {
            assert(spec_code_of_duo('m', 'k') == Some(c));
        },
        LangCode::Mah => {
            assert(spec_code_of_duo('m', 'h') == Some(c));
        },
        LangCode::Mal => {
            assert(spec_code_of_duo('m', 'l') == Some(c));
        },
        LangCode::Mao => {
            assert(spec_code_of_duo('m', 'i') == Some(c));
        },
        LangCode::Mar => {
            assert(spec_code_of_duo('m', 'r') == Some(c));
        },
        LangCode::May => {
            assert(spec_code_of_duo('m', 's') == Some(c));
        },
        LangCode::Mlg => {
            assert(spec_code_of_duo('m', 'g') == Some(c));
        },
        LangCode::Mlt => {
            assert(spec_code_of_duo('m', 't') == Some(c));
        },
        LangCode::Mon => {
            assert(spec_code_of_duo('m', 'n') == Some(c));
        },
        LangCode::Nau => {
            assert(spec_code_of_duo('n', 'a') == Some(c));
        },
        LangCode::Nav => {
            assert(spec_code_of_duo('n', 'v') == Some(c));
        },
        LangCode::Nbl => {
            assert(spec_code_of_duo('n', 'r') == Some(c));
        },
        LangCode::Nde => {
            assert(spec_code_of_duo('n', 'd') == Some(c));
        },
        LangCode::Ndo => {
            assert(spec_code_of_duo('n', 'g') == Some(c));
        },
        LangCode::Nep => {
            assert(spec_code_of_duo('n', 'e') == Some(c));
        },
        LangCode::Nno => {
            assert(spec_code_of_duo('n', 'n') == Some(c));
        },
        LangCode::Nob => {
            assert(spec_code_of_duo('n', 'b') == Some(c));
        },
        LangCode::Nor => {
            assert(spec_code_of_duo('n', 'o') == Some(c));
        },
        LangCode::Nya => {
            assert(spec_code_of_duo('n', 'y') == Some(c));
        },
        LangCode::Oci => {
            assert(spec_code_of_duo('o', 'c') == Some(c));
        },
        LangCode::Oji => {
            assert(spec_code_of_duo('o', 'j') == Some(c));
        },
        LangCode::Ori => {
            assert(spec_code_of_duo('o', 'r') == Some(c));
        },
        LangCode::Orm => {
            assert(spec_code_of_duo('o', 'm') == Some(c));
        },
        LangCode::Oss => {
            assert(spec_code_of_duo('o', 's') == Some(c));
        },
        LangCode::Pan => {
            assert(spec_code_of_duo('p', 'a') == Some(c));
        },
        LangCode::Per => {
            assert(spec_code_of_duo('f', 'a') == Some(c));
        },
        LangCode::Pli => {
            assert(spec_code_of_duo('p', 'i') == Some(c));
        },
        LangCode::Pol => {
            assert(spec_code_of_duo('p', 'l') == Some(c));
        },
        LangCode::Por => {
            assert(spec_code_of_duo('p', 't') == Some(c));
        },
        LangCode::Pus => {
            assert(spec_code_of_duo('p', 's') == Some(c));
        },
        LangCode::Que => {
            assert(spec_code_of_duo('q', 'u') == Some(c));
        },
        LangCode::Roh => {
            assert(spec_code_of_duo('r', 'm') == Some(c));
        },
        LangCode::Rum => {
            assert(spec_code_of_duo('r', 'o') == Some(c));
        },
        LangCode::Run => {
            assert(spec_code_of_duo('r', 'n') == Some(c));
        },
        LangCode::Rus => {
            assert(spec_code_of_duo('r', 'u') == Some(c));
        },
        LangCode::Sag => {
            assert(spec_code_of_duo('s', 'g') == Some(c));
        },
        LangCode::San => {
            assert(spec_code_of_duo('s', 'a') == Some(c));
        },
        LangCode::Sin => {
            assert(spec_code_of_duo('s', 'i') == Some(c));
        },
        LangCode::Slo => {
            assert(spec_code_of_duo('s', 'k') == Some(c));
        },
        LangCode::Slv => {
            assert(spec_code_of_duo('s', 'l') == Some(c));
        },
        LangCode::Sme => {
            assert(spec_code_of_duo('s', 'e') == Some(c));
        },
        LangCode::Smo => {
            assert(spec_code_of_duo('s', 'm') == Some(c));
        },
        LangCode::Sna => {
            assert(spec_code_of_duo('s', 'n') == Some(c));
        },
        LangCode::Snd => {
            assert(spec_code_of_duo('s', 'd') == Some(c));
        },
        LangCode::Som => {
            assert(spec_code_of_duo('s', 'o') == Some(c));
        },
        LangCode::Sot => {
            assert(spec_code_of_duo('s', 't') == Some(c));
        },
        LangCode::Spa => {
            assert(spec_code_of_duo('e', 's') == Some(c));
        },
        LangCode::Srd => {
            assert(spec_code_of_duo('s', 'c') == Some(c));
        },
        LangCode::Srp => {
            assert(spec_code_of_duo('s', 'r') == Some(c));
        },
        LangCode::Ssw => {
            assert(spec_code_of_duo('s', 's') == Some(c));
        },
        LangCode::Sun => {
            assert(spec_code_of_duo('s', 'u') == Some(c));
        },
        LangCode::Swa => {
            assert(spec_code_of_duo('s', 'w') == Some(c));
        },
        LangCode::Swe => {
            assert(spec_code_of_duo('s', 'v') == Some(c));
        },
        LangCode::Tah => {
            assert(spec_code_of_duo('t', 'y') == Some(c));
        },
        LangCode::Tam => {
            assert(spec_code_of_duo('t', 'a') == Some(c));
        },
        LangCode::Tat => {
            assert(spec_code_of_duo('t', 't') == Some(c));
        },
        LangCode::Tel => {
            assert(spec_code_of_duo('t', 'e') == Some(c));
        },
        LangCode::Tgk => {
            assert(spec_code_of_duo('t', 'g') == Some(c));
        },
        LangCode::Tgl => {
            assert(spec_code_of_duo('t', 'l') == Some(c));
        },
        LangCode::Tha => {
            assert(spec_code_of_duo('t', 'h') == Some(c));
        },
        LangCode::Tib => {
            assert(spec_code_of_duo('b', 'o') == Some(c));
        },
        LangCode::Tir => {
            assert(spec_code_of_duo('t', 'i') == Some(c));
        },
        LangCode::Ton => {
            assert(spec_code_of_duo('t', 'o') == Some(c));
        },
        LangCode::Tsn => {
            assert(spec_code_of_duo('t', 'n') == Some(c));
        },
        LangCode::Tso => {
            assert(spec_code_of_duo('t', 's') == Some(c));
        },
        LangCode::Tuk => {
            assert(spec_code_of_duo('t', 'k') == Some(c));
        },
        LangCode::Tur => {
            assert(spec_code_of_duo('t', 'r') == Some(c));
        },
        LangCode::Twi => {
            assert(spec_code_of_duo('t', 'w') == Some(c));
        },
        LangCode::Uig => {
            assert(spec_code_of_duo('u', 'g') == Some(c));
        },
        LangCode::Ukr => {
            assert(spec_code_of_duo('u', 'k') == Some(c));
        },
        LangCode::Urd => {
            assert(spec_code_of_duo('u', 'r') == Some(c));
        },
        LangCode::Uzb => {
            assert(spec_code_of_duo('u', 'z') == Some(c));
        },
        LangCode::Ven => {
            assert(spec_code_of_duo('v', 'e') == Some(c));
        },
        LangCode::Vie => {
            assert(spec_code_of_duo('v', 'i') == Some(c));
        },
        LangCode::Vol => {
            assert(spec_code_of_duo('v', 'o') == Some(c));
        },
        LangCode::Wel => {
            assert(spec_code_of_duo('c', 'y') == Some(c));
        },
        LangCode::Wln => {
            assert(spec_code_of_duo('w', 'a') == Some(c));
        },
        LangCode::Wol => {
            assert(spec_code_of_duo('w', 'o') == Some(c));
        },
        LangCode::Xho => {
            assert(spec_code_of_duo('x', 'h') == Some(c));
        },
        LangCode::Yid => {
            assert(spec_code_of_duo('y', 'i') == Some(c));
        },
        LangCode::Yor => {
            assert(spec_code_of_duo('y', 'o') == Some(c));
        },
        LangCode::Zha => {
            assert(spec_code_of_duo('z', 'a') == Some(c));
        },
        LangCode::Zul => {
            assert(spec_code_of_duo('z', 'u') == Some(c));
        },
    }
}

} // verus!
