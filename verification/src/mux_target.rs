//! Settings given for a target (a directory or a file) and the choice
//! between them and the global settings.
use vstd::prelude::*;
use crate::metadata::{LangMetadata, NameMetadata};

verus! {

/// Contains mux settings for target.
#[derive(Debug)]
pub struct MuxConfigTarget {
    pub track_names: Option<NameMetadata>,
    pub track_langs: Option<LangMetadata>,
}

impl MuxConfigTarget {
    /// Settings that set nothing.
    pub fn default_target() -> (r: MuxConfigTarget)
        ensures
            r.track_names is None,
            r.track_langs is None,
    {
        MuxConfigTarget { track_names: None, track_langs: None }
    }

    /// The settings set nothing.
    pub fn is_default(&self) -> (r: bool)
        ensures
            r == (self.track_names is None && self.track_langs is None),
    {
        self.track_names.is_none() && self.track_langs.is_none()
    }
}

/// The index of the entry of target `t`.
pub open spec fn target_index(map: Seq<(String, MuxConfigTarget)>, t: Seq<char>) -> Option<int>
    decreases map.len(),
{
    if map.len() == 0 {
        None
    } else {
        match target_index(map.drop_last(), t) {
            Some(j) => Some(j),
            None => if map.last().0@ == t {
                Some(map.len() - 1)
            } else {
                None
            },
        }
    }
}

/// The index of the entry of the first target, from index `i` of `targets`
/// on, whose settings set the names.
pub open spec fn names_entry(
    map: Seq<(String, MuxConfigTarget)>,
    targets: Seq<Seq<char>>,
    i: int,
) -> Option<int>
    decreases targets.len() - i,
{
    if i < 0 || i >= targets.len() {
        None
    } else if target_index(map, targets[i]) matches Some(j) && map[j].1.track_names is Some {
        target_index(map, targets[i])
    } else {
        names_entry(map, targets, i + 1)
    }
}

/// The index of the entry of the first target, from index `i` of `targets`
/// on, whose settings set the languages.
pub open spec fn langs_entry(
    map: Seq<(String, MuxConfigTarget)>,
    targets: Seq<Seq<char>>,
    i: int,
) -> Option<int>
    decreases targets.len() - i,
{
    if i < 0 || i >= targets.len() {
        None
    } else if target_index(map, targets[i]) matches Some(j) && map[j].1.track_langs is Some {
        target_index(map, targets[i])
    } else {
        langs_entry(map, targets, i + 1)
    }
}

/// Entry `j` is the first entry of the map for target `t`.
pub open spec fn first_entry(map: Seq<(String, MuxConfigTarget)>, j: int, t: Seq<char>) -> bool {
    &&& 0 <= j < map.len()
    &&& map[j].0@ == t
    &&& forall|k: int| 0 <= k < j ==> map[k].0@ != t
}

/// The entry found for a target is its first entry, and none is found only
/// when the map has no entry for it.
proof fn lemma_target_index_first(map: Seq<(String, MuxConfigTarget)>, t: Seq<char>)
    ensures
        target_index(map, t) matches Some(j) ==> first_entry(map, j, t),
        target_index(map, t) is None ==> forall|k: int| 0 <= k < map.len() ==> map[k].0@ != t,
        forall|j: int| first_entry(map, j, t) ==> target_index(map, t) == Some(j),
    decreases map.len(),
{
    if map.len() > 0 {
        let p = map.drop_last();
        lemma_target_index_first(p, t);
        assert forall|k: int| 0 <= k < p.len() implies p[k] == map[k] by {}
        assert forall|j: int| first_entry(map, j, t) implies target_index(map, t) == Some(j) by {
            if j < p.len() {
                assert(first_entry(p, j, t));
            } else {
                assert forall|k: int| 0 <= k < p.len() implies p[k].0@ != t by {
                    assert(p[k] == map[k]);
                }
            }
        }
    }
}

/// What the entry found from index `i` of the targets on is: the first entry
/// of a target, listed at or after `i`, whose settings set the languages,
/// with no earlier such target from `i` on; none only when no target from
/// `i` on has such an entry.
proof fn lemma_langs_entry_from(
    map: Seq<(String, MuxConfigTarget)>,
    targets: Seq<Seq<char>>,
    i: int,
)
    requires
        0 <= i <= targets.len(),
    ensures
        langs_entry(map, targets, i) matches Some(j) ==> (map[j].1.track_langs is Some && exists|
            x: int,
        |
            i <= x < targets.len() && #[trigger] first_entry(map, j, targets[x]) && forall|
                y: int,
                k: int,
            |
                i <= y < x && #[trigger] first_entry(map, k, targets[y])
                    ==> map[k].1.track_langs is None),
        langs_entry(map, targets, i) is None ==> forall|y: int, k: int|
            i <= y < targets.len() && #[trigger] first_entry(map, k, targets[y])
                ==> map[k].1.track_langs is None,
    decreases targets.len() - i,
{
    if i < targets.len() {
        lemma_target_index_first(map, targets[i]);
        lemma_langs_entry_from(map, targets, i + 1);
        if target_index(map, targets[i]) is Some && map[target_index(map, targets[i])->0].1.track_langs is Some {
            assert(first_entry(map, target_index(map, targets[i])->0, targets[i]));
        } else {
            assert forall|k: int| #[trigger] first_entry(map, k, targets[i]) implies map[k].1.track_langs is None by {
                assert(target_index(map, targets[i]) == Some(k));
            }
            if let Some(j) = langs_entry(map, targets, i) {
                let x = choose|x: int|
                    i + 1 <= x < targets.len() && #[trigger] first_entry(map, j, targets[x]) && forall|
                        y: int,
                        k: int,
                    |
                        i + 1 <= y < x && #[trigger] first_entry(map, k, targets[y])
                            ==> map[k].1.track_langs is None;
                assert(first_entry(map, j, targets[x]));
            }
        }
    }
}

/// Law: the languages for a file of the given targets are those of the
/// first listed target whose entry sets languages; the global ones are
/// taken only when no listed target's entry sets them.
pub proof fn lemma_langs_first_target(map: Seq<(String, MuxConfigTarget)>, targets: Seq<Seq<char>>)
    ensures
        langs_entry(map, targets, 0) matches Some(j) ==> (map[j].1.track_langs is Some && exists|
            x: int,
        |
            0 <= x < targets.len() && #[trigger] first_entry(map, j, targets[x]) && forall|
                y: int,
                k: int,
            |
                0 <= y < x && #[trigger] first_entry(map, k, targets[y])
                    ==> map[k].1.track_langs is None),
        langs_entry(map, targets, 0) is None ==> forall|y: int, k: int|
            0 <= y < targets.len() && #[trigger] first_entry(map, k, targets[y])
                ==> map[k].1.track_langs is None,
{
    lemma_langs_entry_from(map, targets, 0);
}

/// What the entry found from index `i` of the targets on is: the first entry
/// of a target, listed at or after `i`, whose settings set the names,
/// with no earlier such target from `i` on; none only when no target from
/// `i` on has such an entry.
proof fn lemma_names_entry_from(
    map: Seq<(String, MuxConfigTarget)>,
    targets: Seq<Seq<char>>,
    i: int,
)
    requires
        0 <= i <= targets.len(),
    ensures
        names_entry(map, targets, i) matches Some(j) ==> (map[j].1.track_names is Some && exists|
            x: int,
        |
            i <= x < targets.len() && #[trigger] first_entry(map, j, targets[x]) && forall|
                y: int,
                k: int,
            |
                i <= y < x && #[trigger] first_entry(map, k, targets[y])
                    ==> map[k].1.track_names is None),
        names_entry(map, targets, i) is None ==> forall|y: int, k: int|
            i <= y < targets.len() && #[trigger] first_entry(map, k, targets[y])
                ==> map[k].1.track_names is None,
    decreases targets.len() - i,
{
    if i < targets.len() {
        lemma_target_index_first(map, targets[i]);
        lemma_names_entry_from(map, targets, i + 1);
        if target_index(map, targets[i]) is Some && map[target_index(map, targets[i])->0].1.track_names is Some {
            assert(first_entry(map, target_index(map, targets[i])->0, targets[i]));
        } else {
            assert forall|k: int| #[trigger] first_entry(map, k, targets[i]) implies map[k].1.track_names is None by {
                assert(target_index(map, targets[i]) == Some(k));
            }
            if let Some(j) = names_entry(map, targets, i) {
                let x = choose|x: int|
                    i + 1 <= x < targets.len() && #[trigger] first_entry(map, j, targets[x]) && forall|
                        y: int,
                        k: int,
                    |
                        i + 1 <= y < x && #[trigger] first_entry(map, k, targets[y])
                            ==> map[k].1.track_names is None;
                assert(first_entry(map, j, targets[x]));
            }
        }
    }
}

/// Law: the names for a file of the given targets are those of the
/// first listed target whose entry sets names; the global ones are
/// taken only when no listed target's entry sets them.
pub proof fn lemma_names_first_target(map: Seq<(String, MuxConfigTarget)>, targets: Seq<Seq<char>>)
    ensures
        names_entry(map, targets, 0) matches Some(j) ==> (map[j].1.track_names is Some && exists|
            x: int,
        |
            0 <= x < targets.len() && #[trigger] first_entry(map, j, targets[x]) && forall|
                y: int,
                k: int,
            |
                0 <= y < x && #[trigger] first_entry(map, k, targets[y])
                    ==> map[k].1.track_names is None),
        names_entry(map, targets, 0) is None ==> forall|y: int, k: int|
            0 <= y < targets.len() && #[trigger] first_entry(map, k, targets[y])
                ==> map[k].1.track_names is None,
{
    lemma_names_entry_from(map, targets, 0);
}

/// The index of the entry of target `t`.
fn find_target(map: &Vec<(String, MuxConfigTarget)>, t: &String) -> (r: Option<usize>)
    ensures
        r matches Some(x) ==> target_index(map@, t@) == Some(x as int) && x < map.len(),
        r is None ==> target_index(map@, t@) is None,
{
    let mut j: usize = 0;
    while j < map.len()
        invariant
            j <= map.len(),
            target_index(map@.take(j as int), t@) is None,
        decreases map.len() - j,
    {
        assert(map@.take(j + 1).drop_last() =~= map@.take(j as int));
        assert(map@.take(j + 1).last() == map@[j as int]);
        if map[j].0 == *t {
            proof {
                lemma_target_index_prefix(map@, j as int + 1, t@);
            }
            return Some(j);
        }
        j = j + 1;
    }
    assert(map@.take(map.len() as int) =~= map@);
    None
}

/// A target found in a prefix is found at the same index in the whole.
proof fn lemma_target_index_prefix(map: Seq<(String, MuxConfigTarget)>, n: int, t: Seq<char>)
    requires
        0 <= n <= map.len(),
        target_index(map.take(n), t) is Some,
    ensures
        target_index(map, t) == target_index(map.take(n), t),
    decreases map.len() - n,
{
    if n == map.len() {
        assert(map.take(n) =~= map);
    } else {
        assert(map.take(n + 1).drop_last() =~= map.take(n));
        lemma_target_index_prefix(map, n + 1, t);
    }
}

/// The names for a file of the given targets: those of the first target
/// whose settings set names, else the global ones.
pub fn get_trg_track_names<'a>(
    map: Option<&'a Vec<(String, MuxConfigTarget)>>,
    targets: &Vec<String>,
    global: &'a NameMetadata,
) -> (r: &'a NameMetadata)
    ensures
        match map {
            Some(m) => match names_entry(m@, crate::text::string_views(targets@), 0) {
                Some(j) => *r == m@[j].1.track_names->0,
                None => *r == *global,
            },
            None => *r == *global,
        },
{
    let m = match map {
        Some(m) => m,
        None => {
            return global;
        },
    };
    let ghost tv = crate::text::string_views(targets@);
    let mut i: usize = 0;
    while i < targets.len()
        invariant
            tv == crate::text::string_views(targets@),
            i <= targets.len(),
            map == Some(m),
            names_entry(m@, tv, 0) == names_entry(m@, tv, i as int),
        decreases targets.len() - i,
    {
        assert(targets@[i as int]@ == tv[i as int]);
        let found = find_target(m, &targets[i]);
        match found {
            Some(j) => match &m[j].1.track_names {
                Some(v) => {
                    assert(names_entry(m@, tv, i as int) == Some(j as int));
                    return v;
                },
                None => {},
            },
            None => {},
        }
        assert(names_entry(m@, tv, i as int) == names_entry(m@, tv, i + 1));
        i = i + 1;
    }
    global
}

/// The languages for a file of the given targets: those of the first
/// target whose settings set languages, else the global ones.
pub fn get_trg_track_langs<'a>(
    map: Option<&'a Vec<(String, MuxConfigTarget)>>,
    targets: &Vec<String>,
    global: &'a LangMetadata,
) -> (r: &'a LangMetadata)
    ensures
        match map {
            Some(m) => match langs_entry(m@, crate::text::string_views(targets@), 0) {
                Some(j) => *r == m@[j].1.track_langs->0,
                None => *r == *global,
            },
            None => *r == *global,
        },
{
    let m = match map {
        Some(m) => m,
        None => {
            return global;
        },
    };
    let ghost tv = crate::text::string_views(targets@);
    let mut i: usize = 0;
    while i < targets.len()
        invariant
            tv == crate::text::string_views(targets@),
            i <= targets.len(),
            map == Some(m),
            langs_entry(m@, tv, 0) == langs_entry(m@, tv, i as int),
        decreases targets.len() - i,
    {
        assert(targets@[i as int]@ == tv[i as int]);
        let found = find_target(m, &targets[i]);
        match found {
            Some(j) => match &m[j].1.track_langs {
                Some(v) => {
                    assert(langs_entry(m@, tv, i as int) == Some(j as int));
                    return v;
                },
                None => {},
            },
            None => {},
        }
        assert(langs_entry(m@, tv, i as int) == langs_entry(m@, tv, i + 1));
        i = i + 1;
    }
    global
}

/// The arguments that give back the settings of the targets: for each
/// target that has a name as text and settings to give back, `--target`,
/// its name, then its arguments.
pub open spec fn targets_json_args(ts: Seq<(Option<Seq<char>>, Seq<Seq<char>>)>) -> Seq<Seq<char>>
    decreases ts.len(),
{
    if ts.len() == 0 {
        seq![]
    } else {
        let prev = targets_json_args(ts.drop_last());
        let (name, args) = ts.last();
        if name is Some && args.len() > 0 {
            prev + seq!["--target"@, name->0] + args
        } else {
            prev
        }
    }
}

/// The view of targets with their arguments.
pub open spec fn targets_view(ts: Seq<(Option<String>, Vec<String>)>) -> Seq<(Option<Seq<char>>, Seq<Seq<char>>)> {
    ts.map_values(
        |e: (Option<String>, Vec<String>)|
            (
                match e.0 {
                    Some(n) => Some(n@),
                    None => None,
                },
                crate::text::string_views(e.1@),
            ),
    )
}

/// Appends the arguments that give back the settings of the targets (see
/// [`targets_json_args`]); a target whose path is not text is left out.
pub fn append_targets_json_args(args: &mut Vec<String>, targets: &Vec<(Option<String>, Vec<String>)>)
    ensures
        crate::text::string_views(final(args)@) == crate::text::string_views(old(args)@)
            + targets_json_args(targets_view(targets@)),
{
    let ghost tv = targets_view(targets@);
    let ghost start = crate::text::string_views(args@);
    let mut i: usize = 0;
    assert(tv.take(0) =~= Seq::<(Option<Seq<char>>, Seq<Seq<char>>)>::empty());
    assert(start + Seq::<Seq<char>>::empty() =~= start);
    while i < targets.len()
        invariant
            tv == targets_view(targets@),
            i <= targets.len(),
            crate::text::string_views(args@) == start + targets_json_args(tv.take(i as int)),
        decreases targets.len() - i,
    {
        let ghost e = tv[i as int];
        assert(tv.take(i + 1).drop_last() =~= tv.take(i as int));
        assert(tv.take(i + 1).last() == e);
        let ghost before = crate::text::string_views(args@);
        match &targets[i].0 {
            Some(nm) => {
                if targets[i].1.len() > 0 {
                    args.push(String::from_str("--target"));
                    args.push(nm.clone());
                    let mut j: usize = 0;
                    while j < targets[i].1.len()
                        invariant
                            i < targets.len(),
                            j <= targets@[i as int].1.len(),
                            crate::text::string_views(args@) == before + seq!["--target"@, nm@]
                                + crate::text::string_views(targets@[i as int].1@).take(j as int),
                        decreases targets@[i as int].1.len() - j,
                    {
                        let ghost b2 = crate::text::string_views(args@);
                        args.push(targets[i].1[j].clone());
                        assert(crate::text::string_views(targets@[i as int].1@).take(j + 1) =~=
                            crate::text::string_views(targets@[i as int].1@).take(j as int).push(
                                targets@[i as int].1@[j as int]@));
                        assert(crate::text::string_views(args@) =~= b2.push(targets@[i as int].1@[j as int]@));
                        j = j + 1;
                    }
                    assert(crate::text::string_views(targets@[i as int].1@).take(j as int) =~= e.1);
                    assert(crate::text::string_views(args@) =~= before + seq!["--target"@, e.0->0] + e.1);
                }
            },
            None => {},
        }
        i = i + 1;
    }
    assert(tv.take(targets.len() as int) =~= tv);
}

} // verus!
