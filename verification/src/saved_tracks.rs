//! The tracks of a media file that are kept, by kind, once the per-track
//! decision is known: each kind as a sorted set of IDs.
use vstd::prelude::*;
use crate::track_info::TrackType;
use std::collections::BTreeSet;

verus! {

/// `s` is sorted and holds no value twice.
pub open spec fn strictly_sorted_u64(s: Seq<u64>) -> bool {
    forall|i: int, j: int| 0 <= i < j < s.len() ==> s[i] < s[j]
}

/// Some track of `ts` has ID `x`, kind `ty` and is kept.
pub open spec fn kept_u32(ts: Seq<(u32, TrackType, bool)>, ty: TrackType, x: u32) -> bool {
    exists|i: int| 0 <= i < ts.len() && #[trigger] ts[i] == (x, ty, true)
}

/// The IDs of the tracks that are not kept, in order.
pub open spec fn dropped_u32(ts: Seq<(u32, TrackType, bool)>) -> Seq<u32>
    decreases ts.len(),
{
    if ts.len() == 0 {
        seq![]
    } else if !ts.last().2 {
        dropped_u32(ts.drop_last()).push(ts.last().0)
    } else {
        dropped_u32(ts.drop_last())
    }
}

/// Some track of `ts` has number `x`, kind `ty` and is kept.
pub open spec fn kept_u64(ts: Seq<(u64, TrackType, bool)>, ty: TrackType, x: u64) -> bool {
    exists|i: int| 0 <= i < ts.len() && #[trigger] ts[i] == (x, ty, true)
}

/// After inserting `x`, a sequence holds what it held and `x`.
proof fn lemma_insert_contains<T>(o: Seq<T>, p: int, x: T)
    requires
        0 <= p <= o.len(),
    ensures
        forall|y: T| #[trigger] o.insert(p, x).contains(y) <==> (o.contains(y) || y == x),
{
    let v = o.insert(p, x);
    assert forall|y: T| #[trigger] v.contains(y) <==> (o.contains(y) || y == x) by {
        if o.contains(y) {
            let k = choose|k: int| 0 <= k < o.len() && o[k] == y;
            if k < p {
                assert(v[k] == y);
            } else {
                assert(v[k + 1] == y);
            }
        }
        if y == x {
            assert(v[p] == x);
        }
        if v.contains(y) {
            let k = choose|k: int| 0 <= k < v.len() && v[k] == y;
            if k < p {
                assert(o[k] == y);
            } else if k > p {
                assert(o[k - 1] == y);
            }
        }
    }
}

/// IDs are ordered as integers are, as the set of IDs needs.
proof fn lemma_ids_ordered()
    ensures
        vstd::laws_cmp::obeys_cmp::<u32>(),
{
    broadcast use vstd::laws_cmp::group_laws_cmp;
}

/// Adds `x` to a sorted set of numbers.
fn insert_sorted_u64(v: &mut Vec<u64>, x: u64)
    requires
        strictly_sorted_u64(old(v)@),
    ensures
        strictly_sorted_u64(final(v)@),
        forall|y: u64| final(v)@.contains(y) <==> (old(v)@.contains(y) || y == x),
{
    let mut p: usize = 0;
    while p < v.len() && v[p] < x
        invariant
            p <= v.len(),
            v@ == old(v)@,
            forall|k: int| 0 <= k < p ==> v@[k] < x,
        decreases v.len() - p,
    {
        p = p + 1;
    }
    if p < v.len() && v[p] == x {
        assert(v@[p as int] == x);
        return;
    }
    let ghost o = v@;
    assert(o == old(v)@);
    v.insert(p, x);
    assert(v@ =~= o.insert(p as int, x));
    assert forall|a: int, b: int| 0 <= a < b < v@.len() implies v@[a] < v@[b] by {
        if b == p {
        } else if a == p {
            assert(o[p as int] >= x);
            assert(o[p as int] != x);
            if b - 1 > p {
                assert(o[p as int] < o[b - 1]);
            }
        }
    }
    proof {
        lemma_insert_contains(o, p as int, x);
    }
}

/// The IDs of the kept tracks of each kind, and the IDs of the dropped
/// tracks.
#[derive(Debug)]
pub struct SavedU32Ids {
    pub audio: BTreeSet<u32>,
    pub subs: BTreeSet<u32>,
    pub videos: BTreeSet<u32>,
    pub buttons: BTreeSet<u32>,
    pub removed: Vec<u32>,
}

impl SavedU32Ids {
    /// The set of kept IDs of kind `ty`.
    pub open spec fn of_kind(&self, ty: TrackType) -> Set<u32> {
        match ty {
            TrackType::Audio => self.audio@,
            TrackType::Sub => self.subs@,
            TrackType::Video => self.videos@,
            TrackType::Button => self.buttons@,
        }
    }

    /// The kept IDs of kind `ty`.
    pub fn take_kind(self, ty: TrackType) -> (r: BTreeSet<u32>)
        ensures
            r@ == self.of_kind(ty),
    {
        match ty {
            TrackType::Audio => self.audio,
            TrackType::Sub => self.subs,
            TrackType::Video => self.videos,
            TrackType::Button => self.buttons,
        }
    }
}

/// Splits tracks, given as (muxer ID, kind, kept), into the sets of kept
/// IDs of each kind and the IDs of the tracks that are dropped.
pub fn split_saved_u32_ids(tracks: &Vec<(u32, TrackType, bool)>) -> (r: SavedU32Ids)
    ensures
        forall|ty: TrackType, x: u32|
            #[trigger] r.of_kind(ty).contains(x) <==> kept_u32(tracks@, ty, x),
        r.removed@ == dropped_u32(tracks@),
{
    let mut r = SavedU32Ids {
        audio: BTreeSet::new(),
        subs: BTreeSet::new(),
        videos: BTreeSet::new(),
        buttons: BTreeSet::new(),
        removed: Vec::new(),
    };
    proof {
        lemma_ids_ordered();
    }
    let mut i: usize = 0;
    while i < tracks.len()
        invariant
            i <= tracks.len(),
            forall|ty: TrackType, x: u32|
                #[trigger] r.of_kind(ty).contains(x) <==> kept_u32(tracks@.take(i as int), ty, x),
            r.removed@ == dropped_u32(tracks@.take(i as int)),
        decreases tracks.len() - i,
    {
        let (id, ty, keep) = tracks[i];
        let ghost before = r;
        let ghost t = tracks@.take(i as int);
        let ghost t1 = tracks@.take(i + 1);
        assert(t1.drop_last() =~= t);
        assert(t1.last() == tracks@[i as int]);
        assert forall|k: TrackType, y: u32| kept_u32(t1, k, y) <==> (kept_u32(t, k, y) || (keep
            && k == ty && y == id)) by {
            if kept_u32(t1, k, y) {
                let w = choose|w: int| 0 <= w < t1.len() && t1[w] == (y, k, true);
                if w < i {
                    assert(t[w] == t1[w]);
                }
            }
            if kept_u32(t, k, y) {
                let w = choose|w: int| 0 <= w < t.len() && t[w] == (y, k, true);
                assert(t1[w] == t[w]);
            }
            if keep && k == ty && y == id {
                assert(t1[i as int] == (y, k, true));
            }
        }
        if keep {
            match ty {
                TrackType::Audio => {
                    r.audio.insert(id);
                },
                TrackType::Sub => {
                    r.subs.insert(id);
                },
                TrackType::Video => {
                    r.videos.insert(id);
                },
                TrackType::Button => {
                    r.buttons.insert(id);
                },
            }
        } else {
            r.removed.push(id);
        }
        assert forall|k: TrackType, y: u32| #[trigger] r.of_kind(k).contains(y) <==> kept_u32(
            t1,
            k,
            y,
        ) by {
            assert(before.of_kind(k).contains(y) <==> kept_u32(t, k, y));
            if !(keep && k == ty) {
                assert(r.of_kind(k) == before.of_kind(k));
            }
        }
        i = i + 1;
    }
    assert(tracks@.take(tracks.len() as int) =~= tracks@);
    r
}

/// The kept audio, subtitle and video tracks, given as (number, kind,
/// kept), each as a sorted set of numbers; tracks of other kinds are left
/// out.
pub fn split_saved_nums(tracks: &Vec<(u64, TrackType, bool)>) -> (r: (Vec<u64>, Vec<u64>, Vec<u64>))
    ensures
        strictly_sorted_u64(r.0@),
        strictly_sorted_u64(r.1@),
        strictly_sorted_u64(r.2@),
        forall|x: u64| r.0@.contains(x) <==> kept_u64(tracks@, TrackType::Audio, x),
        forall|x: u64| r.1@.contains(x) <==> kept_u64(tracks@, TrackType::Sub, x),
        forall|x: u64| r.2@.contains(x) <==> kept_u64(tracks@, TrackType::Video, x),
{
    let mut audio: Vec<u64> = Vec::new();
    let mut subs: Vec<u64> = Vec::new();
    let mut videos: Vec<u64> = Vec::new();
    let mut i: usize = 0;
    while i < tracks.len()
        invariant
            i <= tracks.len(),
            strictly_sorted_u64(audio@),
            strictly_sorted_u64(subs@),
            strictly_sorted_u64(videos@),
            forall|x: u64| audio@.contains(x) <==> kept_u64(tracks@.take(i as int), TrackType::Audio, x),
            forall|x: u64| subs@.contains(x) <==> kept_u64(tracks@.take(i as int), TrackType::Sub, x),
            forall|x: u64| videos@.contains(x) <==> kept_u64(tracks@.take(i as int), TrackType::Video, x),
        decreases tracks.len() - i,
    {
        let (num, ty, keep) = tracks[i];
        let ghost t = tracks@.take(i as int);
        let ghost t1 = tracks@.take(i + 1);
        assert(t1.drop_last() =~= t);
        assert(t1.last() == tracks@[i as int]);
        assert forall|k: TrackType, y: u64| kept_u64(t1, k, y) <==> (kept_u64(t, k, y) || (keep
            && k == ty && y == num)) by {
            if kept_u64(t1, k, y) {
                let w = choose|w: int| 0 <= w < t1.len() && t1[w] == (y, k, true);
                if w < i {
                    assert(t[w] == t1[w]);
                }
            }
            if kept_u64(t, k, y) {
                let w = choose|w: int| 0 <= w < t.len() && t[w] == (y, k, true);
                assert(t1[w] == t[w]);
            }
            if keep && k == ty && y == num {
                assert(t1[i as int] == (y, k, true));
            }
        }
        if keep {
            match ty {
                TrackType::Audio => insert_sorted_u64(&mut audio, num),
                TrackType::Sub => insert_sorted_u64(&mut subs, num),
                TrackType::Video => insert_sorted_u64(&mut videos, num),
                TrackType::Button => {},
            }
        }
        i = i + 1;
    }
    assert(tracks@.take(tracks.len() as int) =~= tracks@);
    (audio, subs, videos)
}

} // verus!
