//! The lines printed by `mkvinfo` for one track, with the name and the
//! language read from them on first use.
use vstd::prelude::*;
use crate::cache::CacheState;
use crate::error::MuxError;
use crate::lang::spec_get_code;
use crate::lang_table::LangCode;
use crate::strs::{split_once_sub, split_once_sub_chars, trim, trim_chars};
use crate::text::{chars_of, string_of, string_views};

verus! {

/// The value that follows `key` in the first line holding `key`, trimmed.
pub open spec fn find_value(lines: Seq<Seq<char>>, key: Seq<char>) -> Option<Seq<char>>
    decreases lines.len(),
{
    if lines.len() == 0 {
        None
    } else {
        match split_once_sub(lines[0], key) {
            Some((_, right)) => Some(trim(right)),
            None => find_value(lines.drop_first(), key),
        }
    }
}

/// The language of a track: the one its `Language:` line names, or English,
/// the Matroska default.
pub open spec fn spec_mkvinfo_lang(lines: Seq<Seq<char>>) -> LangCode {
    match find_value(lines, "Language:"@) {
        Some(v) => match spec_get_code(v) {
            Some(c) => c,
            None => LangCode::Eng,
        },
        None => LangCode::Eng,
    }
}

/// The lines of `mkvinfo` for one track.
#[derive(Debug)]
pub struct Mkvinfo {
    lines: Vec<String>,
    name: CacheState<String>,
    lang: CacheState<LangCode>,
}

impl Mkvinfo {
    /// The lines, as text.
    pub closed spec fn lines_view(&self) -> Seq<Seq<char>> {
        string_views(self.lines@)
    }

    /// The cached name.
    pub closed spec fn name_state(&self) -> CacheState<String> {
        self.name
    }

    /// The cached language.
    pub closed spec fn lang_state(&self) -> CacheState<LangCode> {
        self.lang
    }

    /// Wraps the lines; nothing is read yet.
    pub fn from_lines(lines: Vec<String>) -> (r: Mkvinfo)
        ensures
            r.lines_view() == string_views(lines@),
            r.name_state() is NotCached,
            r.lang_state() is NotCached,
    {
        Mkvinfo { lines, name: CacheState::NotCached, lang: CacheState::NotCached }
    }

    /// The lines.
    pub fn lines(&self) -> (r: &Vec<String>)
        ensures
            string_views(r@) == self.lines_view(),
    {
        &self.lines
    }

    /// The value that follows `key` in the first line holding it, trimmed.
    ///
    /// # Errors
    ///
    /// When no line holds `key`.
    pub fn build_any_str_val(&self, key: &str) -> (r: Result<String, MuxError>)
        ensures
            find_value(self.lines_view(), key@) matches Some(v) ==> (r matches Ok(s) && s@ == v),
            find_value(self.lines_view(), key@) is None ==> (r matches Err(e)
                && e.has_message("Not found line with '"@ + key@ + "'"@)),
    {
        let ghost ls = self.lines_view();
        let k = chars_of(key);
        let mut i: usize = 0;
        assert(ls.skip(0) =~= ls);
        while i < self.lines.len()
            invariant
                ls == self.lines_view(),
                ls == string_views(self.lines@),
                k@ == key@,
                i <= self.lines.len(),
                find_value(ls, key@) == find_value(ls.skip(i as int), key@),
            decreases self.lines.len() - i,
        {
            assert(ls.skip(i as int)[0] == ls[i as int]);
            assert(ls.skip(i as int).drop_first() =~= ls.skip(i + 1));
            let line = chars_of(self.lines[i].as_str());
            match split_once_sub_chars(line.as_slice(), k.as_slice()) {
                Some((_, right)) => {
                    let t = trim_chars(right.as_slice());
                    return Ok(string_of(t.as_slice()));
                },
                None => {},
            }
            i = i + 1;
        }
        assert(ls.skip(i as int) =~= Seq::<Seq<char>>::empty());
        let mut msg = String::from_str("Not found line with '");
        msg.append(key);
        msg.append("'");
        Err(MuxError::from_string(msg))
    }

    /// The name of the track: the value of its `Name:` line.
    ///
    /// # Errors
    ///
    /// When no line holds `Name:`.
    pub fn build_name(&self) -> (r: Result<String, MuxError>)
        ensures
            find_value(self.lines_view(), "Name:"@) matches Some(v) ==> (r matches Ok(s) && s@
                == v),
            find_value(self.lines_view(), "Name:"@) is None ==> (r matches Err(e) && e.has_message(
                "Not found line with 'Name:'"@,
            )),
    {
        proof {
            reveal_strlit("Not found line with '");
            reveal_strlit("Name:");
            reveal_strlit("'");
            reveal_strlit("Not found line with 'Name:'");
            assert("Not found line with '"@ + "Name:"@ + "'"@ =~= "Not found line with 'Name:'"@);
        }
        self.build_any_str_val("Name:")
    }

    /// The language of the track: the language its `Language:` line names,
    /// or English when there is none.
    pub fn build_lang(&self) -> (r: Result<LangCode, MuxError>)
        ensures
            r == Ok::<LangCode, MuxError>(spec_mkvinfo_lang(self.lines_view())),
    {
        match self.build_any_str_val("Language:") {
            Ok(v) => match LangCode::from_str(v.as_str()) {
                Ok(c) => Ok(c),
                Err(_) => Ok(LangCode::Eng),
            },
            Err(_) => Ok(LangCode::Eng),
        }
    }

    /// Reads the name on first use; later calls give the cached outcome.
    ///
    /// # Errors
    ///
    /// On first use, when there is no `Name:` line; on later uses, when the
    /// first use failed.
    pub fn try_get_name(&mut self) -> (r: Result<&String, MuxError>)
        ensures
            final(self).lines_view() == old(self).lines_view(),
            old(self).name_state() is NotCached ==> (find_value(old(self).lines_view(), "Name:"@)
                matches Some(v) ==> (r matches Ok(s) && s@ == v && final(self).name_state()
                == CacheState::Cached(*s))),
            old(self).name_state() is NotCached ==> (find_value(old(self).lines_view(), "Name:"@)
                is None ==> (r matches Err(e) && e.has_message("Not found line with 'Name:'"@)
                && final(self).name_state() is Failed)),
            old(self).name_state() matches CacheState::Cached(s) ==> r == Ok::<&String, MuxError>(
                &s,
            ),
            old(self).name_state() is Failed ==> (r matches Err(e) && e.has_message(
                "Previously failed to load"@,
            )),
    {
        match self.name {
            CacheState::NotCached => {
                match self.build_name() {
                    Ok(v) => {
                        self.name = CacheState::Cached(v);
                    },
                    Err(e) => {
                        self.name = CacheState::Failed(Box::new(e.duplicate()));
                        return Err(e);
                    },
                }
            },
            _ => {},
        }
        match &self.name {
            CacheState::Cached(v) => Ok(v),
            _ => Err(MuxError::from_str_msg("Previously failed to load")),
        }
    }

    /// Reads the language on first use; later calls give the cached value.
    pub fn get_lang(&mut self) -> (r: LangCode)
        ensures
            final(self).lines_view() == old(self).lines_view(),
            !(old(self).lang_state() is Cached) ==> r == spec_mkvinfo_lang(old(self).lines_view()),
            old(self).lang_state() matches CacheState::Cached(c) ==> r == c,
    {
        match self.lang {
            CacheState::Cached(c) => c,
            _ => {
                let c = match self.build_lang() {
                    Ok(c) => c,
                    Err(_) => LangCode::Eng,
                };
                self.lang = CacheState::Cached(c);
                c
            },
        }
    }
}

} // verus!
