//! Patterns of files to skip: a comma-separated list of globs, compiled
//! into one matcher.
use vstd::prelude::*;
use crate::error::MuxError;
use crate::strs::{split_chars, split_on};
use crate::text::{chars_of, string_of, string_views};

verus! {

/// A compiled set of globs.
#[verifier::external_type_specification]
#[verifier::external_body]
pub struct ExGlobSet(globset::GlobSet);

/// A collection of globs to compile into one set.
#[verifier::external_type_specification]
#[verifier::external_body]
pub struct ExGlobSetBuilder(globset::GlobSetBuilder);

/// The error of compiling a glob or a set of globs.
#[verifier::external_type_specification]
#[verifier::external_body]
pub struct ExGlobError(globset::Error);

/// The glob syntax accepts the pattern: what `globset::Glob::new` decides
/// from the pattern alone.
pub uninterp spec fn glob_accepts(p: Seq<char>) -> bool;

/// The patterns of the globs a builder holds, in the order they were added.
pub uninterp spec fn builder_patterns(b: globset::GlobSetBuilder) -> Seq<Seq<char>>;

/// The globs of these patterns compile into one set: what
/// `globset::GlobSet::new` decides from the globs, which the patterns alone
/// give.
pub uninterp spec fn glob_set_builds(ps: Seq<Seq<char>>) -> bool;

/// An empty builder (`globset::GlobSetBuilder::new`).
#[verifier::external_body]
fn builder_new() -> (r: globset::GlobSetBuilder)
    ensures
        builder_patterns(r) == Seq::<Seq<char>>::empty(),
{
    globset::GlobSetBuilder::new()
}

/// Compiles one glob (`globset::Glob::new`) and adds it to the builder
/// (`GlobSetBuilder::add`). It succeeds exactly on the patterns that the
/// glob syntax accepts, which this item names and does not spell out; on
/// failure the builder is left as it was.
#[verifier::external_body]
fn builder_add_pattern(b: &mut globset::GlobSetBuilder, p: &str) -> (r: Result<(), globset::Error>)
    ensures
        r is Ok <==> glob_accepts(p@),
        r is Ok ==> builder_patterns(*final(b)) == builder_patterns(*old(b)).push(p@),
        r is Err ==> builder_patterns(*final(b)) == builder_patterns(*old(b)),
{
    b.add(globset::Glob::new(p)?);
    Ok(())
}

/// Compiles the globs of the builder into one set
/// (`globset::GlobSetBuilder::build`, which calls `GlobSet::new`). The
/// source returns the empty set without error for no globs; otherwise
/// success is named by [`glob_set_builds`].
#[verifier::external_body]
fn builder_build(b: &globset::GlobSetBuilder) -> (r: Result<globset::GlobSet, globset::Error>)
    ensures
        r is Ok <==> glob_set_builds(builder_patterns(*b)),
        builder_patterns(*b).len() == 0 ==> r is Ok,
{
    b.build()
}

/// A set compiled from the globs of these patterns matches the path: what
/// `globset::GlobSet::is_match` decides from the compiled globs and the
/// path alone.
pub uninterp spec fn glob_set_matches(ps: Seq<Seq<char>>, path: Seq<char>) -> bool;

/// Whether the set of `p` matches the path (`globset::GlobSet::is_match`).
/// The claim rests on how a [`GlobSetPattern`] is made: its fields are
/// private and [`GlobSetPattern::from_str`] alone builds one, compiling its
/// set from the patterns it keeps beside it.
#[verifier::external_body]
fn pattern_set_matches(p: &GlobSetPattern, path: &str) -> (r: bool)
    ensures
        r == glob_set_matches(p.patterns(), path@),
{
    p.glob_set.is_match(path)
}

/// The text of a glob error (its `Display`). Nothing is stated of the text.
#[verifier::external_body]
fn glob_error_text(e: &globset::Error) -> (r: String) {
    e.to_string()
}

/// The message of an invalid pattern.
pub open spec fn invalid_pattern_prefix(p: Seq<char>) -> Seq<char> {
    "Invalid pattern '"@ + p + "': "@
}

/// The first pattern that the glob syntax refuses, from index `i` on.
pub open spec fn first_refused(ps: Seq<Seq<char>>, i: int) -> Option<int>
    decreases ps.len() - i,
{
    if i < 0 || i >= ps.len() {
        None
    } else if !glob_accepts(ps[i]) {
        Some(i)
    } else {
        first_refused(ps, i + 1)
    }
}

/// A set of globs with the text it was written as and the patterns it was
/// compiled from.
#[derive(Debug)]
pub struct GlobSetPattern {
    glob_set: globset::GlobSet,
    raw: String,
    patterns: Vec<String>,
}

impl GlobSetPattern {
    /// The patterns the set was compiled from, in order.
    pub closed spec fn patterns(&self) -> Seq<Seq<char>> {
        string_views(self.patterns@)
    }

    /// The text the set was written as.
    pub closed spec fn raw_view(&self) -> Seq<char> {
        self.raw@
    }

    /// The text the set was written as.
    pub fn raw(&self) -> (r: &str)
        ensures
            r@ == self.raw_view(),
    {
        self.raw.as_str()
    }

    /// Whether the path matches one of the globs.
    pub fn is_match(&self, path: &str) -> (r: bool)
        ensures
            r == glob_set_matches(self.patterns(), path@),
    {
        pattern_set_matches(self, path)
    }

    /// Compiles a comma-separated list of globs.
    ///
    /// # Errors
    ///
    /// When a pattern is refused: `Invalid pattern '<p>': <reason>` for the
    /// first one; when the set cannot be compiled: `Failed to build
    /// patterns: <reason>`.
    pub fn from_str(s: &str) -> (r: Result<GlobSetPattern, MuxError>)
        ensures
            r is Ok <==> (first_refused(split_on(s@, ','), 0) is None && glob_set_builds(
                split_on(s@, ','),
            )),
            r matches Ok(p) ==> p.raw_view() == s@ && p.patterns() == split_on(s@, ','),
            first_refused(split_on(s@, ','), 0) matches Some(k) ==> (r matches Err(e)
                && e.eng_view().len() >= invalid_pattern_prefix(split_on(s@, ',')[k]).len()
                && e.eng_view().take(invalid_pattern_prefix(split_on(s@, ',')[k]).len() as int)
                == invalid_pattern_prefix(split_on(s@, ',')[k])),
            first_refused(split_on(s@, ','), 0) is None ==> (r matches Err(e) ==> e.eng_view().len()
                >= "Failed to build patterns: "@.len() && e.eng_view().take(
                "Failed to build patterns: "@.len() as int,
            ) == "Failed to build patterns: "@),
    {
        let cs = chars_of(s);
        let parts = split_chars(cs.as_slice(), ',');
        let ghost ps = parts@.map_values(|p: Vec<char>| p@);
        assert(ps == split_on(s@, ','));
        let mut builder = builder_new();
        let mut kept: Vec<String> = Vec::new();
        let mut i: usize = 0;
        assert(ps.take(0) =~= Seq::<Seq<char>>::empty());
        while i < parts.len()
            invariant
                ps == parts@.map_values(|p: Vec<char>| p@),
                ps == split_on(s@, ','),
                i <= parts.len(),
                first_refused(ps, 0) == first_refused(ps, i as int),
                builder_patterns(builder) == ps.take(i as int),
                string_views(kept@) == ps.take(i as int),
            decreases parts.len() - i,
        {
            let p = string_of(parts[i].as_slice());
            assert(p@ == ps[i as int]);
            match builder_add_pattern(&mut builder, p.as_str()) {
                Ok(()) => {
                    let ghost before = kept@;
                    kept.push(p);
                    assert(string_views(kept@) =~= string_views(before).push(ps[i as int]));
                    assert(ps.take(i as int).push(ps[i as int]) =~= ps.take(i + 1));
                },
                Err(e) => {
                    let mut msg = String::from_str("Invalid pattern '");
                    msg.append(p.as_str());
                    msg.append("': ");
                    let ghost head = msg@;
                    let t = glob_error_text(&e);
                    msg.append(t.as_str());
                    assert(head == invalid_pattern_prefix(ps[i as int]));
                    assert(msg@.take(head.len() as int) =~= head);
                    return Err(MuxError::from_string(msg));
                },
            }
            i = i + 1;
        }
        assert(ps.take(parts.len() as int) =~= ps);
        match builder_build(&builder) {
            Ok(glob_set) => Ok(GlobSetPattern { glob_set, raw: String::from_str(s), patterns: kept }),
            Err(e) => {
                let mut msg = String::from_str("Failed to build patterns: ");
                let ghost head = msg@;
                let t = glob_error_text(&e);
                msg.append(t.as_str());
                assert(msg@.take(head.len() as int) =~= head);
                Err(MuxError::from_string(msg))
            },
        }
    }
}

} // verus!
