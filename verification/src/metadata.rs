//! Stream names and languages given by the user: one value for all
//! streams, or values by stream number, by language or by range of numbers
//! (`[n:]T[,m:T]...`).
use vstd::prelude::*;
use crate::error::MuxError;
use crate::lang::{Lang, LangView, spec_get_code, spec_lang_of};
use crate::lang_table::LangCode;
use crate::range::{RangeUsize, parse_range};
use crate::strs::{
    contains_char, parse_usize, parse_usize_chars, split_chars, split_on, split_once,
    split_once_chars, trim, trim_chars,
};
use crate::text::{chars_of, string_of};
use std::collections::HashMap;

verus! {

/// A value that a stream setting holds, read from its text.
pub trait MetaValue: Sized + View {
    /// The value read from the text `s`.
    spec fn spec_parse_value(s: Seq<char>) -> Self::V;

    /// Reads the value from its characters.
    fn parse_value(s: &[char]) -> (r: Self)
        ensures
            r@ == Self::spec_parse_value(s@),
    ;
}

impl MetaValue for String {
    open spec fn spec_parse_value(s: Seq<char>) -> Seq<char> {
        s
    }

    fn parse_value(s: &[char]) -> (r: String) {
        string_of(s)
    }
}

impl MetaValue for Lang {
    open spec fn spec_parse_value(s: Seq<char>) -> LangView {
        spec_lang_of(s)
    }

    fn parse_value(s: &[char]) -> (r: Lang) {
        let st = string_of(s);
        Lang::new(st.as_str())
    }
}

/// The index of the first entry of `m` with key `k`.
pub open spec fn key_index<K, V>(m: Seq<(K, V)>, k: K) -> Option<int>
    decreases m.len(),
{
    if m.len() == 0 {
        None
    } else {
        match key_index(m.drop_last(), k) {
            Some(i) => Some(i),
            None => if m.last().0 == k {
                Some(m.len() - 1)
            } else {
                None
            },
        }
    }
}

/// Inserts `v` under `k`: the value of the first entry with key `k` is
/// replaced, or a new entry is appended.
pub open spec fn assoc_insert<K, V>(m: Seq<(K, V)>, k: K, v: V) -> Seq<(K, V)> {
    match key_index(m, k) {
        Some(i) => m.update(i, (k, v)),
        None => m.push((k, v)),
    }
}

/// A key found in a prefix is found at the same index in the whole.
pub(crate) proof fn lemma_key_index_prefix<K, V>(m: Seq<(K, V)>, n: int, k: K)
    requires
        0 <= n <= m.len(),
        key_index(m.take(n), k) is Some,
    ensures
        key_index(m, k) == key_index(m.take(n), k),
    decreases m.len() - n,
{
    if n == m.len() {
        assert(m.take(n) =~= m);
    } else {
        assert(m.take(n + 1).drop_last() =~= m.take(n));
        lemma_key_index_prefix(m, n + 1, k);
    }
}

/// A key index lies inside the sequence.
pub(crate) proof fn lemma_key_index_bound<K, V>(m: Seq<(K, V)>, k: K)
    ensures
        key_index(m, k) matches Some(i) ==> 0 <= i < m.len(),
    decreases m.len(),
{
    if m.len() > 0 {
        lemma_key_index_bound(m.drop_last(), k);
    }
}

/// The abstract value of a [`Metadata`].
pub struct MetadataView<V> {
    pub single_val: Option<V>,
    pub idxs: Option<Map<usize, V>>,
    pub ranges: Option<Seq<(RangeUsize, V)>>,
    pub langs: Option<Seq<(LangCode, V)>>,
}

/// Why a text is not a metadata setting.
pub enum MetaParseError {
    /// A part has no `:`.
    Format,
    /// A stream ID is neither a number, a language nor a range.
    Id(Seq<char>),
    /// No value at all.
    Empty,
}

/// The empty accumulator of values by ID.
pub open spec fn empty_meta<V>() -> MetadataView<V> {
    MetadataView { single_val: None, idxs: None, ranges: None, langs: None }
}

/// The setting after one more part `id:val` (already trimmed).
pub open spec fn add_part<T: MetaValue>(acc: MetadataView<T::V>, q: Seq<char>) -> Result<
    MetadataView<T::V>,
    MetaParseError,
> {
    match split_once(q, ':') {
        None => Err(MetaParseError::Format),
        Some((id, val)) => {
            let v = T::spec_parse_value(val);
            match parse_usize(id) {
                Some(i) => Ok(
                    MetadataView {
                        idxs: Some(
                            match acc.idxs {
                                Some(m) => m,
                                None => Map::empty(),
                            }.insert(i as usize, v),
                        ),
                        ..acc
                    },
                ),
                None => match spec_get_code(id) {
                    Some(c) => Ok(
                        MetadataView {
                            langs: Some(
                                assoc_insert(
                                    match acc.langs {
                                        Some(m) => m,
                                        None => seq![],
                                    },
                                    c,
                                    v,
                                ),
                            ),
                            ..acc
                        },
                    ),
                    None => match parse_range(id) {
                        Some((a, b)) => Ok(
                            MetadataView {
                                ranges: Some(
                                    match acc.ranges {
                                        Some(m) => m,
                                        None => seq![],
                                    }.push((RangeUsize { start: a as usize, end: b as usize }, v)),
                                ),
                                ..acc
                            },
                        ),
                        None => Err(MetaParseError::Id(id)),
                    },
                },
            }
        },
    }
}

/// The setting after the parts `ps`, left to right; empty parts (after
/// trimming) are skipped, and the first bad part stops the reading.
pub open spec fn add_parts<T: MetaValue>(acc: MetadataView<T::V>, ps: Seq<Seq<char>>) -> Result<
    MetadataView<T::V>,
    MetaParseError,
>
    decreases ps.len(),
{
    if ps.len() == 0 {
        Ok(acc)
    } else {
        let q = trim(ps[0]);
        if q.len() == 0 {
            add_parts::<T>(acc, ps.drop_first())
        } else {
            match add_part::<T>(acc, q) {
                Ok(a) => add_parts::<T>(a, ps.drop_first()),
                Err(e) => Err(e),
            }
        }
    }
}

/// The setting written in `s`: after trimming, a text without `:` is one
/// value for all streams; otherwise a comma-separated list of `id:value`
/// where an ID is a stream number, a language or a range of numbers.
pub open spec fn spec_parse_metadata<T: MetaValue>(s: Seq<char>) -> Result<
    MetadataView<T::V>,
    MetaParseError,
> {
    let t = trim(s);
    if !(exists|k: int| 0 <= k < t.len() && t[k] == ':') {
        Ok(MetadataView { single_val: Some(T::spec_parse_value(t)), ..empty_meta() })
    } else {
        match add_parts::<T>(empty_meta(), split_on(t, ',')) {
            Ok(m) => if m.idxs is None && m.langs is None && m.ranges is None {
                Err(MetaParseError::Empty)
            } else {
                Ok(m)
            },
            Err(e) => Err(e),
        }
    }
}

/// The message of an error of reading.
pub open spec fn meta_error_message(e: MetaParseError) -> Seq<char> {
    match e {
        MetaParseError::Format => "Invalid format: Must be [n:]T[,m:T]..."@,
        MetaParseError::Id(id) => "Invalid stream ID '"@ + id
            + "' (must be num, range (n-m) of num or lang code)"@,
        MetaParseError::Empty => "No values found"@,
    }
}

/// Stream values given by the user: one for all streams, or by number, by
/// range of numbers or by language.
#[derive(Debug)]
pub struct Metadata<T> {
    pub single_val: Option<T>,
    pub idxs: Option<HashMap<usize, T>>,
    pub ranges: Option<Vec<(RangeUsize, T)>>,
    pub langs: Option<Vec<(LangCode, T)>>,
}

/// The abstract value of a list of values by key.
pub open spec fn pairs_view<K, T: View>(v: Seq<(K, T)>) -> Seq<(K, T::V)> {
    v.map_values(|e: (K, T)| (e.0, e.1@))
}

/// The abstract value of an optional map of values by number.
pub open spec fn opt_map_view<T: View>(v: Option<HashMap<usize, T>>) -> Option<Map<usize, T::V>> {
    match v {
        Some(m) => Some(m@.map_values(|x: T| x@)),
        None => None,
    }
}

/// The abstract value of an optional list of values by key.
pub open spec fn opt_pairs_view<K, T: View>(v: Option<Vec<(K, T)>>) -> Option<Seq<(K, T::V)>> {
    match v {
        Some(m) => Some(pairs_view(m@)),
        None => None,
    }
}

impl<T: View> View for Metadata<T> {
    type V = MetadataView<T::V>;

    open spec fn view(&self) -> MetadataView<T::V> {
        MetadataView {
            single_val: match &self.single_val {
                Some(v) => Some(v@),
                None => None,
            },
            idxs: opt_map_view(self.idxs),
            ranges: opt_pairs_view(self.ranges),
            langs: opt_pairs_view(self.langs),
        }
    }
}

/// Inserts `v` under the language `k`, replacing the value of an equal key.
fn insert_lang<T: View>(m: &mut Vec<(LangCode, T)>, k: LangCode, v: T)
    ensures
        pairs_view(final(m)@) == assoc_insert(pairs_view(old(m)@), k, v@),
{
    let ghost mv = pairs_view(m@);
    let mut i: usize = 0;
    while i < m.len()
        invariant
            i <= m.len(),
            mv == pairs_view(m@),
            mv == pairs_view(old(m)@),
            key_index(mv.take(i as int), k) is None,
        decreases m.len() - i,
    {
        assert(mv.take(i + 1).drop_last() =~= mv.take(i as int));
        assert(mv.take(i + 1).last() == mv[i as int]);
        assert(mv[i as int].0 == m@[i as int].0);
        if m[i].0 == k {
            proof {
                lemma_key_index_prefix(mv, i + 1, k);
            }
            assert(key_index(mv, k) == Some(i as int));
            m.set(i, (k, v));
            assert(pairs_view(m@) =~= mv.update(i as int, (k, v@)));
            return;
        }
        i = i + 1;
    }
    assert(mv.take(i as int) =~= mv);
    m.push((k, v));
    assert(pairs_view(m@) =~= mv.push((k, v@)));
}

/// The error of a stream ID that is neither a number, a language nor a
/// range.
fn id_error(id: &Vec<char>) -> (r: MuxError)
    ensures
        r.has_message(meta_error_message(MetaParseError::Id(id@))),
        r.code == 1,
{
    let mut msg = String::from_str("Invalid stream ID '");
    let tail = string_of(id.as_slice());
    msg.append(tail.as_str());
    msg.append("' (must be num, range (n-m) of num or lang code)");
    MuxError::from_string(msg)
}

impl<T: MetaValue> Metadata<T> {
    /// Reads a setting from its text.
    ///
    /// # Errors
    ///
    /// A part without `:`, a stream ID that is neither a number, a language
    /// nor a range, or no value at all.
    pub fn from_str(s: &str) -> (r: Result<Metadata<T>, MuxError>)
        ensures
            r is Ok <==> spec_parse_metadata::<T>(s@) is Ok,
            r matches Ok(m) ==> spec_parse_metadata::<T>(s@) == Ok::<MetadataView<T::V>, MetaParseError>(m@),
            r matches Err(e) ==> e.has_message(
                meta_error_message(spec_parse_metadata::<T>(s@)->Err_0),
            ),
    {
        broadcast use vstd::std_specs::hash::group_hash_axioms;

        let cs = chars_of(s);
        let t = trim_chars(cs.as_slice());
        if !contains_char(t.as_slice(), ':') {
            let v = T::parse_value(t.as_slice());
            let m = Metadata { single_val: Some(v), idxs: None, ranges: None, langs: None };
            assert(m@ == MetadataView { single_val: Some(T::spec_parse_value(t@)), ..empty_meta() });
            return Ok(m);
        }
        let parts = split_chars(t.as_slice(), ',');
        let ghost ps = parts@.map_values(|p: Vec<char>| p@);
        let mut idxs: Option<HashMap<usize, T>> = None;
        let mut ranges: Option<Vec<(RangeUsize, T)>> = None;
        let mut langs: Option<Vec<(LangCode, T)>> = None;
        let mut i: usize = 0;
        assert(ps.skip(0) =~= ps);
        while i < parts.len()
            invariant
                ps == parts@.map_values(|p: Vec<char>| p@),
                ps == split_on(t@, ','),
                t@ == trim(s@),
                exists|k: int| 0 <= k < t@.len() && t@[k] == ':',
                i <= parts.len(),
                add_parts::<T>(empty_meta(), ps) == add_parts::<T>(
                    MetadataView {
                        single_val: None,
                        idxs: opt_map_view(idxs),
                        ranges: opt_pairs_view(ranges),
                        langs: opt_pairs_view(langs),
                    },
                    ps.skip(i as int),
                ),
            decreases parts.len() - i,
        {
            let ghost acc = MetadataView {
                single_val: None,
                idxs: opt_map_view(idxs),
                ranges: opt_pairs_view(ranges),
                langs: opt_pairs_view(langs),
            };
            assert(ps.skip(i as int)[0] == ps[i as int]);
            assert(ps.skip(i as int).drop_first() =~= ps.skip(i + 1));
            assert(ps[i as int] == parts@[i as int]@);
            let q = trim_chars(parts[i].as_slice());
            let ghost qs = trim(ps[i as int]);
            assert(q@ == qs);
            if q.len() > 0 {
                let ghost acc0 = acc;
                match split_once_chars(q.as_slice(), ':') {
                    None => {
                        return Err(MuxError::from_str_msg("Invalid format: Must be [n:]T[,m:T]..."));
                    },
                    Some((id, val)) => {
                        let v = T::parse_value(val.as_slice());
                        match parse_usize_chars(id.as_slice()) {
                            Some(n) => {
                                let mut m = match idxs {
                                    Some(m) => m,
                                    None => HashMap::new(),
                                };
                                let ghost mv = m@.map_values(|x: T| x@);
                                assert(mv =~= match acc0.idxs {
                                    Some(x) => x,
                                    None => Map::empty(),
                                });
                                let ghost vv = v@;
                                m.insert(n, v);
                                assert(m@.map_values(|x: T| x@) =~= mv.insert(n, vv));
                                idxs = Some(m);
                            },
                            None => {
                                let id_str = string_of(id.as_slice());
                                match LangCode::get(id_str.as_str()) {
                                    Some(c) => {
                                        let mut m = match langs {
                                            Some(m) => m,
                                            None => Vec::new(),
                                        };
                                        assert(pairs_view(m@) =~= match acc0.langs {
                                            Some(x) => x,
                                            None => seq![],
                                        });
                                        insert_lang(&mut m, c, v);
                                        langs = Some(m);
                                    },
                                    None => match RangeUsize::parse_chars(id.as_slice()) {
                                        Some(rg) => {
                                            let mut m = match ranges {
                                                Some(m) => m,
                                                None => Vec::new(),
                                            };
                                            assert(pairs_view(m@) =~= match acc0.ranges {
                                                Some(x) => x,
                                                None => seq![],
                                            });
                                            let ghost mv = pairs_view(m@);
                                            m.push((rg, v));
                                            assert(pairs_view(m@) =~= mv.push((rg, v@)));
                                            ranges = Some(m);
                                        },
                                        None => {
                                            return Err(id_error(&id));
                                        },
                                    },
                                }
                            },
                        }
                        assert(add_part::<T>(acc0, qs) == Ok::<MetadataView<T::V>, MetaParseError>(MetadataView {
                            single_val: None,
                            idxs: opt_map_view(idxs),
                            ranges: opt_pairs_view(ranges),
                            langs: opt_pairs_view(langs),
                        }));
                    },
                }
            }
            i = i + 1;
        }
        assert(ps.skip(i as int) =~= Seq::<Seq<char>>::empty());
        if idxs.is_none() && langs.is_none() && ranges.is_none() {
            return Err(MuxError::from_str_msg("No values found"));
        }
        Ok(Metadata { single_val: None, idxs, ranges, langs })
    }
}

/// Stream names given by the user.
#[derive(Debug)]
pub struct NameMetadata(pub Metadata<String>);

/// Stream languages given by the user.
#[derive(Debug)]
pub struct LangMetadata(pub Metadata<Lang>);

impl NameMetadata {
    /// Reads stream names from their text.
    ///
    /// # Errors
    ///
    /// As [`Metadata::from_str`].
    pub fn from_str(s: &str) -> (r: Result<NameMetadata, MuxError>)
        ensures
            r is Ok <==> spec_parse_metadata::<String>(s@) is Ok,
            r matches Ok(m) ==> spec_parse_metadata::<String>(s@) == Ok::<MetadataView<Seq<char>>, MetaParseError>(m.0@),
            r matches Err(e) ==> e.has_message(
                meta_error_message(spec_parse_metadata::<String>(s@)->Err_0),
            ),
    {
        match Metadata::<String>::from_str(s) {
            Ok(m) => Ok(NameMetadata(m)),
            Err(e) => Err(e),
        }
    }
}

impl LangMetadata {
    /// Reads stream languages from their text.
    ///
    /// # Errors
    ///
    /// As [`Metadata::from_str`].
    pub fn from_str(s: &str) -> (r: Result<LangMetadata, MuxError>)
        ensures
            r is Ok <==> spec_parse_metadata::<Lang>(s@) is Ok,
            r matches Ok(m) ==> spec_parse_metadata::<Lang>(s@) == Ok::<MetadataView<LangView>, MetaParseError>(m.0@),
            r matches Err(e) ==> e.has_message(
                meta_error_message(spec_parse_metadata::<Lang>(s@)->Err_0),
            ),
    {
        match Metadata::<Lang>::from_str(s) {
            Ok(m) => Ok(LangMetadata(m)),
            Err(e) => Err(e),
        }
    }
}

} // verus!
