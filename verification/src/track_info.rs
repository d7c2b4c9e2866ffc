//! Decisions about the tracks of media files: the name and the language of
//! a track, and whether a subtitle track holds signs, from what the user set,
//! what the file's tags say and the words of its path.
use vstd::prelude::*;
use crate::error::MuxError;
use crate::grouping::opt_bytes;
use crate::lang::{spec_get_code, spec_priority_code};
use crate::lang_table::LangCode;
use crate::strs::{trim, trim_chars};
use crate::text::{chars_of, letter_words, regex_letter_words, string_of, string_views};

verus! {

/// A value either set by the user or found automatically.
#[derive(Debug)]
pub enum Value<T> {
    User(T),
    Auto(T),
}

impl<T> Value<T> {
    /// The value was set by the user.
    pub fn is_user(&self) -> (r: bool)
        ensures
            r == (self is User),
    {
        match self {
            Value::User(_) => true,
            Value::Auto(_) => false,
        }
    }

    /// The value itself.
    pub fn into_inner(self) -> (r: T)
        ensures
            r == match self {
                Value::User(v) => v,
                Value::Auto(v) => v,
            },
    {
        match self {
            Value::User(v) => v,
            Value::Auto(v) => v,
        }
    }
}

/// The kind of a track.
#[derive(Clone, Copy, Debug, PartialEq, Eq, Structural)]
pub enum TrackType {
    Audio,
    Sub,
    Video,
    Button,
}

/// The lowercase form of an ASCII or basic Cyrillic letter; other
/// characters are kept.
pub open spec fn letter_lower(c: char) -> char {
    if ('A' <= c && c <= 'Z') || ('А' <= c && c <= 'Я') {
        ((c as u32) + 32) as char
    } else if c == 'Ё' {
        'ё'
    } else {
        c
    }
}

/// [`letter_lower`] of every character.
pub open spec fn letters_lower(s: Seq<char>) -> Seq<char> {
    s.map_values(|c: char| letter_lower(c))
}

/// A word that marks signs: `signs` or `надписи`, in any case, around white
/// space.
pub open spec fn is_signs_word(s: Seq<char>) -> bool {
    letters_lower(trim(s)) == "signs"@ || letters_lower(trim(s)) == "надписи"@
}

/// Some word of `ws` marks signs.
pub open spec fn any_signs_word(ws: Seq<Seq<char>>) -> bool {
    exists|i: int| 0 <= i < ws.len() && is_signs_word(#[trigger] ws[i])
}

/// A text marks signs: one of its letter words does.
pub open spec fn text_marks_signs(s: Seq<char>) -> bool {
    any_signs_word(letter_words(s))
}

/// Strips the characters `.` and ` ` from both ends.
pub open spec fn trim_dots_spaces(s: Seq<char>) -> Seq<char>
    decreases s.len(),
{
    if s.len() > 0 && (s[0] == '.' || s[0] == ' ') {
        trim_dots_spaces(s.drop_first())
    } else if s.len() > 0 && (s.last() == '.' || s.last() == ' ') {
        trim_dots_spaces(s.drop_last())
    } else {
        s
    }
}

/// The number of bytes of a character in UTF-8.
pub open spec fn char_utf8_len(c: char) -> nat {
    if (c as u32) < 0x80 {
        1
    } else if (c as u32) < 0x800 {
        2
    } else if (c as u32) < 0x10000 {
        3
    } else {
        4
    }
}

/// The number of bytes of a text in UTF-8.
pub open spec fn utf8_len(s: Seq<char>) -> nat
    decreases s.len(),
{
    if s.len() == 0 {
        0
    } else {
        utf8_len(s.drop_last()) + char_utf8_len(s.last())
    }
}

/// The name of a track: the user's name; else its tag; else the tail of
/// its file's stem, stripped of `.` and ` `, when longer than two bytes;
/// else the name of its parent directory; else the empty name.
pub open spec fn spec_ti_name(
    user: Option<Seq<char>>,
    tag: Option<Seq<char>>,
    path_tail: Option<Seq<char>>,
    parent: Option<Seq<char>>,
) -> Value<Seq<char>> {
    if user is Some {
        Value::User(user->0)
    } else if tag is Some {
        Value::Auto(tag->0)
    } else if path_tail matches Some(t) && utf8_len(trim_dots_spaces(t)) > 2 {
        Value::Auto(trim_dots_spaces(path_tail->0))
    } else if parent is Some {
        Value::Auto(parent->0)
    } else {
        Value::Auto(Seq::empty())
    }
}

/// The language of a track: the user's language; else its tag when it
/// names a language other than undetermined; else the language by priority
/// of the words of its name, then of its file's stem tail, then of its
/// directory path; else undetermined.
pub open spec fn spec_ti_lang(
    user: Option<LangCode>,
    tag: Option<Seq<char>>,
    name_words: Option<Seq<Seq<char>>>,
    tail_words: Option<Seq<Seq<char>>>,
    rel_words: Option<Seq<Seq<char>>>,
) -> Value<LangCode> {
    if user is Some {
        Value::User(user->0)
    } else if tag matches Some(t) && spec_get_code(t) matches Some(c) && c != LangCode::Und {
        Value::Auto(spec_get_code(tag->0)->0)
    } else if name_words matches Some(w) && spec_priority_code(w) is Some {
        Value::Auto(spec_priority_code(name_words->0)->0)
    } else if tail_words matches Some(w) && spec_priority_code(w) is Some {
        Value::Auto(spec_priority_code(tail_words->0)->0)
    } else if rel_words matches Some(w) && spec_priority_code(w) is Some {
        Value::Auto(spec_priority_code(rel_words->0)->0)
    } else {
        Value::Auto(LangCode::Und)
    }
}

/// The view of an optional string.
pub open spec fn opt_view(o: Option<String>) -> Option<Seq<char>> {
    match o {
        Some(s) => Some(s@),
        None => None,
    }
}

/// The view of optional words.
pub open spec fn opt_words(o: Option<Vec<String>>) -> Option<Seq<Seq<char>>> {
    match o {
        Some(v) => Some(string_views(v@)),
        None => None,
    }
}

/// The view of a value of strings.
pub open spec fn value_view(v: Value<String>) -> Value<Seq<char>> {
    match v {
        Value::User(s) => Value::User(s@),
        Value::Auto(s) => Value::Auto(s@),
    }
}

/// The letter words of a text: maximal runs of ASCII letters or of basic
/// Cyrillic letters.
pub fn str_to_words(s: &str) -> (r: Vec<String>)
    ensures
        string_views(r@) == letter_words(s@),
{
    regex_letter_words(s)
}

/// The lowercase form of an ASCII or basic Cyrillic letter.
fn lower_letter(c: char) -> (r: char)
    ensures
        r == letter_lower(c),
{
    if 'A' <= c && c <= 'Z' {
        return ((c as u8) + 32) as char;
    }
    match c {
        'А' => 'а',
        'Б' => 'б',
        'В' => 'в',
        'Г' => 'г',
        'Д' => 'д',
        'Е' => 'е',
        'Ж' => 'ж',
        'З' => 'з',
        'И' => 'и',
        'Й' => 'й',
        'К' => 'к',
        'Л' => 'л',
        'М' => 'м',
        'Н' => 'н',
        'О' => 'о',
        'П' => 'п',
        'Р' => 'р',
        'С' => 'с',
        'Т' => 'т',
        'У' => 'у',
        'Ф' => 'ф',
        'Х' => 'х',
        'Ц' => 'ц',
        'Ч' => 'ч',
        'Ш' => 'ш',
        'Щ' => 'щ',
        'Ъ' => 'ъ',
        'Ы' => 'ы',
        'Ь' => 'ь',
        'Э' => 'э',
        'Ю' => 'ю',
        'Я' => 'я',
        'Ё' => 'ё',
        _ => c,
    }
}

/// The word marks signs: `signs` or `надписи` in any case, around white
/// space.
pub fn it_signs(s: &str) -> (r: bool)
    ensures
        r == is_signs_word(s@),
{
    let t = trim_chars(chars_of(s).as_slice());
    let mut low: Vec<char> = Vec::new();
    let mut i: usize = 0;
    while i < t.len()
        invariant
            i <= t.len(),
            low@ == letters_lower(t@.take(i as int)),
        decreases t.len() - i,
    {
        low.push(lower_letter(t[i]));
        assert(letters_lower(t@.take(i + 1)) =~= letters_lower(t@.take(i as int)).push(
            letter_lower(t@[i as int]),
        ));
        i = i + 1;
    }
    assert(t@.take(t.len() as int) =~= t@);
    let w = string_of(low.as_slice());
    let signs = String::from_str("signs");
    let nadpisi = String::from_str("надписи");
    w == signs || w == nadpisi
}

/// Some word marks signs.
pub fn it_signs_many(words: &Vec<String>) -> (r: bool)
    ensures
        r == any_signs_word(string_views(words@)),
{
    let ghost ws = string_views(words@);
    let mut i: usize = 0;
    while i < words.len()
        invariant
            ws == string_views(words@),
            i <= words.len(),
            forall|k: int| 0 <= k < i ==> !is_signs_word(#[trigger] ws[k]),
        decreases words.len() - i,
    {
        if it_signs(words[i].as_str()) {
            assert(is_signs_word(ws[i as int]));
            return true;
        }
        i = i + 1;
    }
    false
}

/// The text marks signs: one of its letter words does.
pub fn text_it_signs(s: &str) -> (r: bool)
    ensures
        r == text_marks_signs(s@),
{
    let words = str_to_words(s);
    it_signs_many(&words)
}

/// A stream of a media file holds signs: it is a subtitle stream and its
/// name, the tail of its file's stem or its directory path marks signs.
pub fn stream_it_signs(
    is_sub: bool,
    name: Option<&String>,
    path_tail: Option<&String>,
    relative_upmost: Option<&String>,
) -> (r: bool)
    ensures
        r == (is_sub && ((name matches Some(s) && text_marks_signs(s@)) || (path_tail matches Some(
            s,
        ) && text_marks_signs(s@)) || (relative_upmost matches Some(s) && text_marks_signs(s@)))),
{
    if !is_sub {
        return false;
    }
    let a = match name {
        Some(s) => text_it_signs(s.as_str()),
        None => false,
    };
    if a {
        return true;
    }
    let b = match path_tail {
        Some(s) => text_it_signs(s.as_str()),
        None => false,
    };
    if b {
        return true;
    }
    match relative_upmost {
        Some(s) => text_it_signs(s.as_str()),
        None => false,
    }
}

/// A track holds signs: it is a subtitle track and a word of its file's
/// stem tail, of its directory path or of its name marks signs.
pub fn ti_it_signs(
    ty: Option<TrackType>,
    tail_words: Option<&Vec<String>>,
    rel_words: Option<&Vec<String>>,
    name_words: Option<&Vec<String>>,
) -> (r: bool)
    ensures
        r == (ty == Some(TrackType::Sub) && ((tail_words matches Some(w) && any_signs_word(
            string_views(w@),
        )) || (rel_words matches Some(w) && any_signs_word(string_views(w@))) || (
        name_words matches Some(w) && any_signs_word(string_views(w@))))),
{
    match ty {
        Some(TrackType::Sub) => {},
        _ => {
            return false;
        },
    }
    match tail_words {
        Some(w) => {
            if it_signs_many(w) {
                return true;
            }
        },
        None => {},
    }
    match rel_words {
        Some(w) => {
            if it_signs_many(w) {
                return true;
            }
        },
        None => {},
    }
    match name_words {
        Some(w) => it_signs_many(w),
        None => false,
    }
}

/// Strips `.` and ` ` from both ends.
fn trim_dots_spaces_exec(s: &Vec<char>) -> (r: Vec<char>)
    ensures
        r@ == trim_dots_spaces(s@),
{
    let mut a: usize = 0;
    let mut b: usize = s.len();
    assert(s@.subrange(0, s.len() as int) =~= s@);
    while a < b && (s[a] == '.' || s[a] == ' ')
        invariant
            a <= b == s.len(),
            trim_dots_spaces(s@) == trim_dots_spaces(s@.subrange(a as int, b as int)),
        decreases b - a,
    {
        assert(s@.subrange(a as int, b as int).drop_first() =~= s@.subrange(a + 1, b as int));
        a = a + 1;
    }
    while a < b && (s[b - 1] == '.' || s[b - 1] == ' ')
        invariant
            a <= b <= s.len(),
            a == b || (s@[a as int] != '.' && s@[a as int] != ' '),
            trim_dots_spaces(s@) == trim_dots_spaces(s@.subrange(a as int, b as int)),
        decreases b - a,
    {
        assert(s@.subrange(a as int, b as int).drop_last() =~= s@.subrange(a as int, b - 1));
        b = b - 1;
    }
    crate::strs::sub_chars(s.as_slice(), a, b)
}

/// The number of bytes of characters in UTF-8, or a number above 2 once
/// it is above 2.
fn utf8_len_above_2(s: &Vec<char>) -> (r: bool)
    ensures
        r == (utf8_len(s@) > 2),
{
    let mut n: usize = 0;
    let mut i: usize = 0;
    while i < s.len()
        invariant
            i <= s.len(),
            n == utf8_len(s@.take(i as int)),
            n <= 2,
        decreases s.len() - i,
    {
        let c = s[i] as u32;
        let k: usize = if c < 0x80 {
            1
        } else if c < 0x800 {
            2
        } else if c < 0x10000 {
            3
        } else {
            4
        };
        assert(s@.take(i + 1).drop_last() =~= s@.take(i as int));
        assert(s@.take(i + 1).last() == s@[i as int]);
        n = n + k;
        i = i + 1;
        if n > 2 {
            proof {
                lemma_utf8_len_mono(s@, i as int);
            }
            return true;
        }
    }
    assert(s@.take(s.len() as int) =~= s@);
    false
}

/// The UTF-8 length of a prefix is at most that of the whole.
proof fn lemma_utf8_len_mono(s: Seq<char>, n: int)
    requires
        0 <= n <= s.len(),
    ensures
        utf8_len(s.take(n)) <= utf8_len(s),
    decreases s.len() - n,
{
    if n < s.len() {
        assert(s.take(n + 1).drop_last() =~= s.take(n));
        lemma_utf8_len_mono(s, n + 1);
    } else {
        assert(s.take(n) =~= s);
    }
}

/// The name of a track, from the user's name, its tag, the tail of its
/// file's stem and the name of its parent directory (see [`spec_ti_name`]).
pub fn ti_name(
    user: Option<String>,
    tag: Option<String>,
    path_tail: Option<String>,
    parent: Option<String>,
) -> (r: Value<String>)
    ensures
        value_view(r) == spec_ti_name(
            opt_view(user),
            opt_view(tag),
            opt_view(path_tail),
            opt_view(parent),
        ),
{
    if let Some(n) = user {
        return Value::User(n);
    }
    if let Some(n) = tag {
        return Value::Auto(n);
    }
    if let Some(t) = &path_tail {
        let s = trim_dots_spaces_exec(&chars_of(t.as_str()));
        if utf8_len_above_2(&s) {
            return Value::Auto(string_of(s.as_slice()));
        }
    }
    if let Some(p) = parent {
        return Value::Auto(p);
    }
    Value::Auto(String::new())
}

/// The language of a track (see [`spec_ti_lang`]).
pub fn ti_lang(
    user: Option<LangCode>,
    tag: Option<String>,
    name_words: Option<Vec<String>>,
    tail_words: Option<Vec<String>>,
    rel_words: Option<Vec<String>>,
) -> (r: Value<LangCode>)
    ensures
        r == spec_ti_lang(
            user,
            opt_view(tag),
            opt_words(name_words),
            opt_words(tail_words),
            opt_words(rel_words),
        ),
{
    if let Some(c) = user {
        return Value::User(c);
    }
    if let Some(t) = &tag {
        if let Ok(c) = LangCode::from_str(t.as_str()) {
            if c != LangCode::Und {
                return Value::Auto(c);
            }
        }
    }
    if let Some(w) = &name_words {
        if let Ok(c) = LangCode::try_priority(w.as_slice()) {
            return Value::Auto(c);
        }
    }
    if let Some(w) = &tail_words {
        if let Ok(c) = LangCode::try_priority(w.as_slice()) {
            return Value::Auto(c);
        }
    }
    if let Some(w) = &rel_words {
        if let Ok(c) = LangCode::try_priority(w.as_slice()) {
            return Value::Auto(c);
        }
    }
    Value::Auto(LangCode::Und)
}

/// Index of the first shortest stem, or `None` when no file has a stem.
pub open spec fn spec_shortest(stems: Seq<Option<Seq<u8>>>) -> Option<int>
    decreases stems.len(),
{
    if stems.len() == 0 {
        None
    } else {
        let prev = spec_shortest(stems.drop_last());
        match stems.last() {
            None => prev,
            Some(s) => match prev {
                Some(j) => if stems[j]->0.len() <= s.len() {
                    Some(j)
                } else {
                    Some(stems.len() - 1)
                },
                None => Some(stems.len() - 1),
            },
        }
    }
}

/// The stem common to a group of files: the first shortest of their stems,
/// as its index.
///
/// # Errors
///
/// When no file has a stem.
pub fn shortest_stem(stems: &Vec<Option<Vec<u8>>>) -> (r: Result<usize, MuxError>)
    ensures
        match spec_shortest(opt_bytes(stems@)) {
            Some(j) => r == Ok::<usize, MuxError>(j as usize),
            None => r matches Err(e) && e.has_message("Not found any file_stem()"@),
        },
{
    let ghost sv = opt_bytes(stems@);
    let mut best: Option<usize> = None;
    let mut i: usize = 0;
    while i < stems.len()
        invariant
            sv == opt_bytes(stems@),
            i <= stems.len(),
            match spec_shortest(sv.take(i as int)) {
                Some(j) => best == Some(j as usize) && 0 <= j < i && sv[j] is Some,
                None => best is None,
            },
        decreases stems.len() - i,
    {
        assert(sv.take(i + 1).drop_last() =~= sv.take(i as int));
        assert(sv.take(i + 1).last() == sv[i as int]);
        match &stems[i] {
            Some(s) => match best {
                Some(j) => {
                    assert(sv.take(i + 1)[j as int] == sv[j as int]);
                    let bl = match &stems[j] {
                        Some(b) => b.len(),
                        None => 0,
                    };
                    if bl > s.len() {
                        best = Some(i);
                    }
                },
                None => {
                    best = Some(i);
                },
            },
            None => {},
        }
        i = i + 1;
    }
    assert(sv.take(stems.len() as int) =~= sv);
    match best {
        Some(j) => Ok(j),
        None => Err(MuxError::from_str_msg("Not found any file_stem()")),
    }
}

/// The name to set on a stream: the user's; else, when the stream has no
/// name and names are found automatically, the tail of its file's stem
/// stripped of `.` and ` ` when longer than two bytes, else the name of its
/// parent directory; else nothing.
pub open spec fn spec_stream_name(
    user: Option<Seq<char>>,
    has_name: bool,
    auto: bool,
    path_tail: Option<Seq<char>>,
    parent: Option<Seq<char>>,
) -> Option<Value<Seq<char>>> {
    if user is Some {
        Some(Value::User(user->0))
    } else if has_name || !auto {
        None
    } else if path_tail matches Some(t) && utf8_len(trim_dots_spaces(t)) > 2 {
        Some(Value::Auto(trim_dots_spaces(path_tail->0)))
    } else if parent is Some {
        Some(Value::Auto(parent->0))
    } else {
        None
    }
}

/// The language named by a text when it is a language other than
/// undetermined.
pub open spec fn spec_named_lang(s: Option<Seq<char>>) -> Option<LangCode> {
    if s matches Some(t) && spec_get_code(t) matches Some(c) && c != LangCode::Und {
        spec_get_code(s->0)
    } else {
        None
    }
}

/// The language to set on a stream: the user's; else, when the stream's
/// language is undetermined and languages are found automatically, the
/// language named by its name, then by the tail of its file's stem, then by
/// its directory path; else nothing.
pub open spec fn spec_stream_lang(
    user: Option<LangCode>,
    lang_is_default: bool,
    auto: bool,
    name: Option<Seq<char>>,
    path_tail: Option<Seq<char>>,
    relative_upmost: Option<Seq<char>>,
) -> Option<Value<LangCode>> {
    if user is Some {
        Some(Value::User(user->0))
    } else if !lang_is_default || !auto {
        None
    } else if spec_named_lang(name) is Some {
        Some(Value::Auto(spec_named_lang(name)->0))
    } else if spec_named_lang(path_tail) is Some {
        Some(Value::Auto(spec_named_lang(path_tail)->0))
    } else if spec_named_lang(relative_upmost) is Some {
        Some(Value::Auto(spec_named_lang(relative_upmost)->0))
    } else {
        None
    }
}

/// The view of an optional value of strings.
pub open spec fn opt_value_view(v: Option<Value<String>>) -> Option<Value<Seq<char>>> {
    match v {
        Some(x) => Some(value_view(x)),
        None => None,
    }
}

/// The name to set on a stream (see [`spec_stream_name`]).
pub fn stream_name(
    user: Option<String>,
    has_name: bool,
    auto: bool,
    path_tail: Option<&String>,
    parent: Option<String>,
) -> (r: Option<Value<String>>)
    ensures
        opt_value_view(r) == spec_stream_name(
            opt_view(user),
            has_name,
            auto,
            match path_tail {
                Some(t) => Some(t@),
                None => None,
            },
            opt_view(parent),
        ),
{
    if let Some(n) = user {
        return Some(Value::User(n));
    }
    if has_name || !auto {
        return None;
    }
    if let Some(t) = path_tail {
        let s = trim_dots_spaces_exec(&chars_of(t.as_str()));
        if utf8_len_above_2(&s) {
            return Some(Value::Auto(string_of(s.as_slice())));
        }
    }
    match parent {
        Some(p) => Some(Value::Auto(p)),
        None => None,
    }
}

/// The language named by a text, when other than undetermined.
fn named_lang(s: Option<&String>) -> (r: Option<LangCode>)
    ensures
        r == spec_named_lang(
            match s {
                Some(t) => Some(t@),
                None => None,
            },
        ),
{
    match s {
        Some(t) => match LangCode::from_str(t.as_str()) {
            Ok(c) => if c != LangCode::Und {
                Some(c)
            } else {
                None
            },
            Err(_) => None,
        },
        None => None,
    }
}

/// The language to set on a stream (see [`spec_stream_lang`]).
pub fn stream_lang(
    user: Option<LangCode>,
    lang_is_default: bool,
    auto: bool,
    name: Option<&String>,
    path_tail: Option<&String>,
    relative_upmost: Option<&String>,
) -> (r: Option<Value<LangCode>>)
    ensures
        r == spec_stream_lang(
            user,
            lang_is_default,
            auto,
            match name {
                Some(t) => Some(t@),
                None => None,
            },
            match path_tail {
                Some(t) => Some(t@),
                None => None,
            },
            match relative_upmost {
                Some(t) => Some(t@),
                None => None,
            },
        ),
{
    if let Some(c) = user {
        return Some(Value::User(c));
    }
    if !lang_is_default || !auto {
        return None;
    }
    if let Some(c) = named_lang(name) {
        return Some(Value::Auto(c));
    }
    if let Some(c) = named_lang(path_tail) {
        return Some(Value::Auto(c));
    }
    match named_lang(relative_upmost) {
        Some(c) => Some(Value::Auto(c)),
        None => None,
    }
}

/// Law: the user's name wins over everything else, and only the user's name
/// is reported as given by the user.
pub proof fn lemma_ti_name_user_first(
    user: Option<Seq<char>>,
    tag: Option<Seq<char>>,
    path_tail: Option<Seq<char>>,
    parent: Option<Seq<char>>,
)
    ensures
        user matches Some(u) ==> spec_ti_name(user, tag, path_tail, parent) == Value::User(u),
        spec_ti_name(user, tag, path_tail, parent) is User ==> user is Some,
{
}

/// Law: without a name from the user, the name of the tag is taken, whatever
/// the path tail and the parent directory are.
pub proof fn lemma_ti_name_tag_before_path(
    tag: Seq<char>,
    path_tail: Option<Seq<char>>,
    parent: Option<Seq<char>>,
)
    ensures
        spec_ti_name(None, Some(tag), path_tail, parent) == Value::<Seq<char>>::Auto(tag),
{
}

/// Law: a name found automatically comes from one of the sources: the tag,
/// the path tail (trimmed), the parent directory, or is empty.
pub proof fn lemma_ti_name_sources(
    user: Option<Seq<char>>,
    tag: Option<Seq<char>>,
    path_tail: Option<Seq<char>>,
    parent: Option<Seq<char>>,
)
    ensures
        spec_ti_name(user, tag, path_tail, parent) matches Value::Auto(n) ==> (tag == Some(n)
            || (path_tail matches Some(t) && n == trim_dots_spaces(t)) || parent == Some(n)
            || n.len() == 0),
{
}

/// Law: the user's language wins over everything else, and only the user's
/// language is reported as given by the user.
pub proof fn lemma_ti_lang_user_first(
    user: Option<LangCode>,
    tag: Option<Seq<char>>,
    name_words: Option<Seq<Seq<char>>>,
    tail_words: Option<Seq<Seq<char>>>,
    rel_words: Option<Seq<Seq<char>>>,
)
    ensures
        user matches Some(u) ==> spec_ti_lang(user, tag, name_words, tail_words, rel_words)
            == Value::User(u),
        spec_ti_lang(user, tag, name_words, tail_words, rel_words) is User ==> user is Some,
{
}

/// Law: without a language from the user, a tag that names a language other
/// than undetermined gives that language, before any words are consulted.
pub proof fn lemma_ti_lang_tag_first(
    tag: Seq<char>,
    c: LangCode,
    name_words: Option<Seq<Seq<char>>>,
    tail_words: Option<Seq<Seq<char>>>,
    rel_words: Option<Seq<Seq<char>>>,
)
    requires
        spec_get_code(tag) == Some(c),
        c != LangCode::Und,
    ensures
        spec_ti_lang(None, Some(tag), name_words, tail_words, rel_words) == Value::Auto(c),
{
}

/// Law: a language found automatically is named by one of the sources (the
/// tag, the words of the name, of the stem tail or of the directory path),
/// or is undetermined.
pub proof fn lemma_ti_lang_sources(
    user: Option<LangCode>,
    tag: Option<Seq<char>>,
    name_words: Option<Seq<Seq<char>>>,
    tail_words: Option<Seq<Seq<char>>>,
    rel_words: Option<Seq<Seq<char>>>,
)
    ensures
        spec_ti_lang(user, tag, name_words, tail_words, rel_words) matches Value::Auto(c) ==> (c
            == LangCode::Und || (tag matches Some(t) && spec_get_code(t) == Some(c)) || (
        name_words matches Some(w) && spec_priority_code(w) == Some(c)) || (tail_words matches Some(
            w,
        ) && spec_priority_code(w) == Some(c)) || (rel_words matches Some(w) && spec_priority_code(w)
            == Some(c))),
{
}

/// Whether optional words name a language by priority.
pub open spec fn words_name_lang(w: Option<Seq<Seq<char>>>) -> bool {
    w is Some && spec_priority_code(w->0) is Some
}

/// Law: without a user language and without a tag that names a determined
/// language, the words of the name come first, then those of the stem tail,
/// then those of the directory path; with none of them naming a language,
/// the language is undetermined.
pub proof fn lemma_ti_lang_words_order(
    tag: Option<Seq<char>>,
    name_words: Option<Seq<Seq<char>>>,
    tail_words: Option<Seq<Seq<char>>>,
    rel_words: Option<Seq<Seq<char>>>,
)
    requires
        !(tag is Some && spec_get_code(tag->0) is Some && spec_get_code(tag->0)->0
            != LangCode::Und),
    ensures
        ({
            let r = spec_ti_lang(None, tag, name_words, tail_words, rel_words);
            &&& words_name_lang(name_words) ==> r == Value::Auto(
                spec_priority_code(name_words->0)->0,
            )
            &&& !words_name_lang(name_words) && words_name_lang(tail_words) ==> r == Value::Auto(
                spec_priority_code(tail_words->0)->0,
            )
            &&& !words_name_lang(name_words) && !words_name_lang(tail_words) && words_name_lang(
                rel_words,
            ) ==> r == Value::Auto(spec_priority_code(rel_words->0)->0)
            &&& !words_name_lang(name_words) && !words_name_lang(tail_words) && !words_name_lang(
                rel_words,
            ) ==> r == Value::Auto(LangCode::Und)
        }),
{
}

/// Whether an optional path tail, trimmed, is longer than two bytes.
pub open spec fn tail_names(t: Option<Seq<char>>) -> bool {
    t is Some && utf8_len(trim_dots_spaces(t->0)) > 2
}

/// Law: without a user name or a tag, a trimmed path tail longer than two
/// bytes names the track before the parent directory does; the name is
/// empty only when no source gives one.
pub proof fn lemma_ti_name_path_order(t: Option<Seq<char>>, parent: Option<Seq<char>>)
    ensures
        ({
            let r = spec_ti_name(None, None, t, parent);
            &&& tail_names(t) ==> r == Value::<Seq<char>>::Auto(trim_dots_spaces(t->0))
            &&& !tail_names(t) && parent is Some ==> r == Value::<Seq<char>>::Auto(parent->0)
            &&& !tail_names(t) && parent is None ==> r == Value::<Seq<char>>::Auto(Seq::empty())
        }),
{
}

} // verus!
