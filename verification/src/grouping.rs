//! Grouping of media files by the stem of a file of the input directory.
//!
//! Each file of the input directory proposes its stem; the group of that
//! stem is every media file (of all media directories) whose stem begins
//! with it. Stems are the encoded bytes of OS strings.
use vstd::prelude::*;
use crate::media_number::{MediaNumber, MediaNumberView, digits_value, spec_from_bytes, spec_upd};
use crate::os_bytes::{bytes_starts_with, is_prefix};
use crate::range::RangeUsize;

verus! {

/// The views of optional byte strings.
pub open spec fn opt_bytes(s: Seq<Option<Vec<u8>>>) -> Seq<Option<Seq<u8>>> {
    s.map_values(
        |o: Option<Vec<u8>>|
            match o {
                Some(v) => Some(v@),
                None => None,
            },
    )
}

/// The indices of the candidate stems that begin with `up`, in order.
pub open spec fn matched_indices(cands: Seq<Option<Seq<u8>>>, up: Seq<u8>) -> Seq<int>
    decreases cands.len(),
{
    if cands.len() == 0 {
        seq![]
    } else {
        let prev = matched_indices(cands.drop_last(), up);
        if cands.last() matches Some(st) && is_prefix(up, st) {
            prev.push(cands.len() - 1)
        } else {
            prev
        }
    }
}

/// The value that [`MediaNumber::to_usize`] reports for a state.
pub open spec fn number_value(v: MediaNumberView) -> int {
    if v.s.len() > 0 && digits_value(v.s) <= usize::MAX {
        digits_value(v.s) as int
    } else {
        0
    }
}

/// The bytes of a string of ASCII characters.
pub open spec fn char_bytes(s: Seq<char>) -> Seq<u8> {
    s.map_values(|c: char| c as u8)
}

/// The abstract value of a [`MediaGroupedByStem`].
pub struct GroupView {
    pub files: Seq<int>,
    pub out_name_middle: Seq<u8>,
    pub stem: Seq<u8>,
}

/// The options that steer the grouping.
#[derive(Clone, Copy, Debug)]
pub struct GroupOptions {
    /// Only numbers inside this range are kept, when a number is tracked.
    pub range: Option<RangeUsize>,
    /// A stem with a single matching file makes a group too.
    pub solo: bool,
    /// A number is tracked for the input.
    pub need_num: bool,
    /// A number is tracked and names the output.
    pub out_need_num: bool,
}

/// The number tracked from the start: built from the stem of the second
/// file of the input directory, when numbers are needed.
pub open spec fn initial_number(ups: Seq<Option<Seq<u8>>>, opts: GroupOptions) -> Option<
    MediaNumberView,
> {
    if (opts.need_num || opts.out_need_num) && ups.len() >= 2 && ups[1] is Some {
        Some(spec_from_bytes(ups[1]->0))
    } else {
        None
    }
}

/// One file of the input directory: the stems already grouped, the number,
/// and the group it makes, if any.
///
/// A file without stem or with an already grouped stem is passed over; else
/// the number is updated with the stem; a number outside the range, or (when
/// not solo) fewer than two matching files, makes no group.
pub open spec fn group_step(
    processed: Seq<Seq<u8>>,
    num: Option<MediaNumberView>,
    up: Option<Seq<u8>>,
    cands: Seq<Option<Seq<u8>>>,
    opts: GroupOptions,
) -> (Seq<Seq<u8>>, Option<MediaNumberView>, Option<GroupView>) {
    match up {
        None => (processed, num, None),
        Some(u) => if processed.contains(u) {
            (processed, num, None)
        } else {
            let num2 = match num {
                Some(n) => Some(spec_upd(n, u)),
                None => None,
            };
            if num2 matches Some(n) && opts.range matches Some(rg) && !(rg.start <= number_value(n)
                <= rg.end) {
                (processed, num2, None)
            } else {
                let m = matched_indices(cands, u);
                if !opts.solo && m.len() < 2 {
                    (processed, num2, None)
                } else {
                    let middle = if opts.out_need_num && num2 is Some {
                        char_bytes(num2->0.s)
                    } else {
                        u
                    };
                    (processed.push(u), num2, Some(GroupView { files: m, out_name_middle: middle, stem: u }))
                }
            }
        },
    }
}

/// The groups made by the files of the input directory from index `i` on.
pub open spec fn groups_from(
    ups: Seq<Option<Seq<u8>>>,
    i: int,
    processed: Seq<Seq<u8>>,
    num: Option<MediaNumberView>,
    cands: Seq<Option<Seq<u8>>>,
    opts: GroupOptions,
) -> Seq<GroupView>
    decreases ups.len() - i,
{
    if i < 0 || i >= ups.len() {
        seq![]
    } else {
        let (p2, n2, g) = group_step(processed, num, ups[i], cands, opts);
        let rest = groups_from(ups, i + 1, p2, n2, cands, opts);
        match g {
            Some(gv) => seq![gv] + rest,
            None => rest,
        }
    }
}

/// The groups of media files for the stems `ups` of the files of the input
/// directory and the stems `cands` of all media files.
pub open spec fn spec_group_media(
    ups: Seq<Option<Seq<u8>>>,
    cands: Seq<Option<Seq<u8>>>,
    opts: GroupOptions,
) -> Seq<GroupView> {
    groups_from(ups, 0, seq![], initial_number(ups, opts), cands, opts)
}

/// The indices of the matching candidates lie inside the candidates, and
/// each names a stem that begins with `up`.
pub proof fn lemma_matched_indices(cands: Seq<Option<Seq<u8>>>, up: Seq<u8>)
    ensures
        forall|k: int|
            0 <= k < matched_indices(cands, up).len() ==> {
                let f = #[trigger] matched_indices(cands, up)[k];
                0 <= f < cands.len() && cands[f] is Some && is_prefix(up, cands[f]->0)
            },
    decreases cands.len(),
{
    if cands.len() > 0 {
        let p = cands.drop_last();
        lemma_matched_indices(p, up);
        assert forall|k: int| 0 <= k < matched_indices(cands, up).len() implies {
            let f = #[trigger] matched_indices(cands, up)[k];
            0 <= f < cands.len() && cands[f] is Some && is_prefix(up, cands[f]->0)
        } by {
            if k < matched_indices(p, up).len() {
                let f = matched_indices(p, up)[k];
                assert(matched_indices(cands, up)[k] == f);
                assert(cands[f] == p[f]);
            }
        }
    }
}

/// What every group from index `i` on satisfies, given the stems already
/// grouped.
proof fn lemma_groups_from_sound(
    ups: Seq<Option<Seq<u8>>>,
    i: int,
    processed: Seq<Seq<u8>>,
    num: Option<MediaNumberView>,
    cands: Seq<Option<Seq<u8>>>,
    opts: GroupOptions,
)
    ensures
        ({
            let gs = groups_from(ups, i, processed, num, cands, opts);
            &&& forall|g: int, k: int|
                0 <= g < gs.len() && 0 <= k < gs[g].files.len() ==> {
                    let f = #[trigger] gs[g].files[k];
                    0 <= f < cands.len() && cands[f] is Some && is_prefix(gs[g].stem, cands[f]->0)
                }
            &&& !opts.solo ==> forall|g: int| 0 <= g < gs.len() ==> #[trigger] gs[g].files.len() >= 2
            &&& forall|g: int| 0 <= g < gs.len() ==> !processed.contains(#[trigger] gs[g].stem)
            &&& forall|g1: int, g2: int|
                0 <= g1 < g2 < gs.len() ==> #[trigger] gs[g1].stem != #[trigger] gs[g2].stem
        }),
    decreases ups.len() - i,
{
    if 0 <= i < ups.len() {
        let (p2, n2, g) = group_step(processed, num, ups[i], cands, opts);
        lemma_groups_from_sound(ups, i + 1, p2, n2, cands, opts);
        let rest = groups_from(ups, i + 1, p2, n2, cands, opts);
        let gs = groups_from(ups, i, processed, num, cands, opts);
        if let Some(gv) = g {
            let u = ups[i]->0;
            assert(gv.stem == u);
            assert(p2 == processed.push(u));
            lemma_matched_indices(cands, u);
            assert(gs == seq![gv] + rest);
            assert forall|g1: int| 0 <= g1 < rest.len() implies !processed.contains(
                #[trigger] rest[g1].stem,
            ) && rest[g1].stem != u by {
                assert(!p2.contains(rest[g1].stem));
                if processed.contains(rest[g1].stem) {
                    let w = choose|w: int| 0 <= w < processed.len() && processed[w] == rest[g1].stem;
                    assert(p2[w] == rest[g1].stem);
                }
                assert(p2[processed.len() as int] == u);
            }
            assert forall|g1: int, k: int|
                0 <= g1 < gs.len() && 0 <= k < gs[g1].files.len() implies {
                    let f = #[trigger] gs[g1].files[k];
                    0 <= f < cands.len() && cands[f] is Some && is_prefix(gs[g1].stem, cands[f]->0)
                } by {
                if g1 == 0 {
                    assert(gs[0].files[k] == matched_indices(cands, u)[k]);
                } else {
                    assert(gs[g1] == rest[g1 - 1]);
                }
            }
            assert forall|g1: int, g2: int| 0 <= g1 < g2 < gs.len() implies #[trigger] gs[g1].stem
                != #[trigger] gs[g2].stem by {
                assert(gs[g2] == rest[g2 - 1]);
                if g1 > 0 {
                    assert(gs[g1] == rest[g1 - 1]);
                }
            }
            assert forall|g1: int| 0 <= g1 < gs.len() implies !processed.contains(
                #[trigger] gs[g1].stem,
            ) by {
                if g1 > 0 {
                    assert(gs[g1] == rest[g1 - 1]);
                }
            }
            if !opts.solo {
                assert forall|g1: int| 0 <= g1 < gs.len() implies #[trigger] gs[g1].files.len()
                    >= 2 by {
                    if g1 > 0 {
                        assert(gs[g1] == rest[g1 - 1]);
                    }
                }
            }
        } else {
            assert(gs == rest);
            assert(p2 == processed);
        }
    }
}

/// Law: every file of a group has a stem that begins with the group's stem;
/// unless `solo`, a group holds at least two files; and no stem makes two
/// groups.
pub proof fn lemma_groups_sound(
    ups: Seq<Option<Seq<u8>>>,
    cands: Seq<Option<Seq<u8>>>,
    opts: GroupOptions,
)
    ensures
        ({
            let gs = spec_group_media(ups, cands, opts);
            &&& forall|g: int, k: int|
                0 <= g < gs.len() && 0 <= k < gs[g].files.len() ==> {
                    let f = #[trigger] gs[g].files[k];
                    0 <= f < cands.len() && cands[f] is Some && is_prefix(gs[g].stem, cands[f]->0)
                }
            &&& !opts.solo ==> forall|g: int| 0 <= g < gs.len() ==> #[trigger] gs[g].files.len() >= 2
            &&& forall|g1: int, g2: int|
                0 <= g1 < g2 < gs.len() ==> #[trigger] gs[g1].stem != #[trigger] gs[g2].stem
        }),
{
    lemma_groups_from_sound(ups, 0, seq![], initial_number(ups, opts), cands, opts);
}

/// Every candidate whose stem begins with `up` is matched.
proof fn lemma_matched_indices_complete(cands: Seq<Option<Seq<u8>>>, up: Seq<u8>)
    ensures
        forall|f: int|
            0 <= f < cands.len() && cands[f] is Some && is_prefix(up, cands[f]->0)
                ==> #[trigger] matched_indices(cands, up).contains(f),
    decreases cands.len(),
{
    if cands.len() > 0 {
        let p = cands.drop_last();
        lemma_matched_indices_complete(p, up);
        let mp = matched_indices(p, up);
        let m = matched_indices(cands, up);
        assert forall|f: int|
            0 <= f < cands.len() && cands[f] is Some && is_prefix(up, cands[f]->0)
                implies #[trigger] m.contains(f) by {
            if f < p.len() {
                assert(p[f] == cands[f]);
                assert(mp.contains(f));
                let w = choose|w: int| 0 <= w < mp.len() && mp[w] == f;
                assert(m[w] == f);
            } else {
                assert(m[m.len() - 1] == f);
            }
        }
    }
}

/// What names every group from index `i` on, and which files it holds.
proof fn lemma_groups_from_named(
    ups: Seq<Option<Seq<u8>>>,
    i: int,
    processed: Seq<Seq<u8>>,
    num: Option<MediaNumberView>,
    cands: Seq<Option<Seq<u8>>>,
    opts: GroupOptions,
)
    ensures
        ({
            let gs = groups_from(ups, i, processed, num, cands, opts);
            &&& !opts.out_need_num ==> forall|g: int|
                0 <= g < gs.len() ==> #[trigger] gs[g].out_name_middle == gs[g].stem
            &&& forall|g: int, f: int|
                0 <= g < gs.len() && 0 <= f < cands.len() && cands[f] is Some && is_prefix(
                    gs[g].stem,
                    cands[f]->0,
                ) ==> #[trigger] gs[g].files.contains(f)
        }),
    decreases ups.len() - i,
{
    if 0 <= i < ups.len() {
        let (p2, n2, g) = group_step(processed, num, ups[i], cands, opts);
        lemma_groups_from_named(ups, i + 1, p2, n2, cands, opts);
        let rest = groups_from(ups, i + 1, p2, n2, cands, opts);
        let gs = groups_from(ups, i, processed, num, cands, opts);
        if let Some(gv) = g {
            let u = ups[i]->0;
            lemma_matched_indices_complete(cands, u);
            assert(gs == seq![gv] + rest);
            assert forall|g1: int| 0 <= g1 < gs.len() implies #[trigger] gs[g1] == if g1 == 0 {
                gv
            } else {
                rest[g1 - 1]
            } by {}
        } else {
            assert(gs == rest);
        }
    }
}

/// Law: unless the number is asked to name the output, every group's output
/// name is its stem; and a group holds every media file whose stem begins
/// with the group's stem.
pub proof fn lemma_groups_named_by_stem(
    ups: Seq<Option<Seq<u8>>>,
    cands: Seq<Option<Seq<u8>>>,
    opts: GroupOptions,
)
    ensures
        ({
            let gs = spec_group_media(ups, cands, opts);
            &&& !opts.out_need_num ==> forall|g: int|
                0 <= g < gs.len() ==> #[trigger] gs[g].out_name_middle == gs[g].stem
            &&& forall|g: int, f: int|
                0 <= g < gs.len() && 0 <= f < cands.len() && cands[f] is Some && is_prefix(
                    gs[g].stem,
                    cands[f]->0,
                ) ==> #[trigger] gs[g].files.contains(f)
        }),
{
    lemma_groups_from_named(ups, 0, seq![], initial_number(ups, opts), cands, opts);
}

/// Media files grouped by a common stem.
#[derive(Debug)]
pub struct MediaGroupedByStem {
    /// Indices of the matching media files.
    pub files: Vec<usize>,
    /// The middle part of the output name: the number or the stem.
    pub out_name_middle: Vec<u8>,
    /// The common stem.
    pub stem: Vec<u8>,
}

impl View for MediaGroupedByStem {
    type V = GroupView;

    open spec fn view(&self) -> GroupView {
        GroupView {
            files: self.files@.map_values(|i: usize| i as int),
            out_name_middle: self.out_name_middle@,
            stem: self.stem@,
        }
    }
}

/// The state of an optional number.
pub open spec fn num_view(o: Option<MediaNumber>) -> Option<MediaNumberView> {
    match o {
        Some(n) => Some(n@),
        None => None,
    }
}

/// Equality of two byte strings.
pub fn bytes_eq(a: &[u8], b: &[u8]) -> (r: bool)
    ensures
        r == (a@ == b@),
{
    if a.len() != b.len() {
        return false;
    }
    let mut i: usize = 0;
    while i < a.len()
        invariant
            a.len() == b.len(),
            i <= a.len(),
            forall|k: int| 0 <= k < i ==> a@[k] == b@[k],
        decreases a.len() - i,
    {
        if a[i] != b[i] {
            return false;
        }
        i = i + 1;
    }
    assert(a@ =~= b@);
    true
}

/// A copy of a byte string.
fn copy_bytes(a: &[u8]) -> (r: Vec<u8>)
    ensures
        r@ == a@,
{
    let mut v: Vec<u8> = Vec::new();
    let mut i: usize = 0;
    while i < a.len()
        invariant
            i <= a.len(),
            v@ == a@.take(i as int),
        decreases a.len() - i,
    {
        v.push(a[i]);
        assert(a@.take(i as int).push(a@[i as int]) =~= a@.take(i + 1));
        i = i + 1;
    }
    assert(a@.take(a.len() as int) =~= a@);
    v
}

/// `list` holds `x`.
fn contains_bytes(list: &Vec<Vec<u8>>, x: &[u8]) -> (r: bool)
    ensures
        r == list@.map_values(|v: Vec<u8>| v@).contains(x@),
{
    let ghost views = list@.map_values(|v: Vec<u8>| v@);
    let mut i: usize = 0;
    while i < list.len()
        invariant
            views == list@.map_values(|v: Vec<u8>| v@),
            i <= list.len(),
            forall|k: int| 0 <= k < i ==> views[k] != x@,
        decreases list.len() - i,
    {
        if bytes_eq(list[i].as_slice(), x) {
            assert(views[i as int] == x@);
            return true;
        }
        i = i + 1;
    }
    false
}

/// The indices of the candidates whose stem begins with `up`.
fn matching_files(cands: &Vec<Option<Vec<u8>>>, up: &[u8]) -> (r: Vec<usize>)
    ensures
        r@.map_values(|i: usize| i as int) == matched_indices(opt_bytes(cands@), up@),
{
    let ghost cv = opt_bytes(cands@);
    let mut out: Vec<usize> = Vec::new();
    let mut i: usize = 0;
    while i < cands.len()
        invariant
            cv == opt_bytes(cands@),
            i <= cands.len(),
            out@.map_values(|i: usize| i as int) == matched_indices(cv.take(i as int), up@),
        decreases cands.len() - i,
    {
        let ghost before = out@;
        assert(cv.take(i + 1).drop_last() =~= cv.take(i as int));
        match &cands[i] {
            Some(st) => {
                if bytes_starts_with(up, st.as_slice()) {
                    out.push(i);
                    assert(out@.map_values(|i: usize| i as int) =~= before.map_values(
                        |i: usize| i as int,
                    ).push(i as int));
                }
            },
            None => {},
        }
        i = i + 1;
    }
    assert(cv.take(cands.len() as int) =~= cv);
    out
}

/// The bytes of the characters of a string of digits.
fn digit_bytes(s: &str) -> (r: Vec<u8>)
    requires
        forall|k: int| 0 <= k < s@.len() ==> '0' <= #[trigger] s@[k] <= '9',
    ensures
        r@ == char_bytes(s@),
{
    let cs = crate::text::chars_of(s);
    let mut v: Vec<u8> = Vec::new();
    let mut i: usize = 0;
    while i < cs.len()
        invariant
            cs@ == s@,
            forall|k: int| 0 <= k < s@.len() ==> '0' <= #[trigger] s@[k] <= '9',
            i <= cs.len(),
            v@ == char_bytes(s@.take(i as int)),
        decreases cs.len() - i,
    {
        let c = cs[i];
        assert('0' <= s@[i as int] <= '9');
        v.push(c as u8);
        assert(char_bytes(s@.take(i + 1)) =~= char_bytes(s@.take(i as int)).push(c as u8));
        i = i + 1;
    }
    assert(s@.take(cs.len() as int) =~= s@);
    v
}

/// Groups the media files by the stems of the files of the input directory.
///
/// `ups` are the stems of the media files of the input directory, in the
/// order they are listed (`None` for a file without stem); `cands` are the
/// stems of the media files of all media directories. Each group lists the
/// indices in `cands` of its files.
pub fn group_media_by_stem(
    ups: &Vec<Option<Vec<u8>>>,
    cands: &Vec<Option<Vec<u8>>>,
    opts: GroupOptions,
) -> (r: Vec<MediaGroupedByStem>)
    ensures
        r@.map_values(|g: MediaGroupedByStem| g@) == spec_group_media(
            opt_bytes(ups@),
            opt_bytes(cands@),
            opts,
        ),
{
    let ghost uv = opt_bytes(ups@);
    let ghost cv = opt_bytes(cands@);
    let mut num: Option<MediaNumber> = None;
    if (opts.need_num || opts.out_need_num) && ups.len() >= 2 {
        match &ups[1] {
            Some(b) => {
                num = Some(MediaNumber::from_bytes(b.as_slice()));
            },
            None => {},
        }
    }
    let mut processed: Vec<Vec<u8>> = Vec::new();
    let mut out: Vec<MediaGroupedByStem> = Vec::new();
    let mut i: usize = 0;
    assert(processed@.map_values(|v: Vec<u8>| v@) =~= Seq::<Seq<u8>>::empty());
    assert(out@.map_values(|g: MediaGroupedByStem| g@) =~= Seq::<GroupView>::empty());
    assert(num_view(num) == initial_number(uv, opts));
    assert(Seq::<GroupView>::empty() + spec_group_media(uv, cv, opts) =~= spec_group_media(uv, cv, opts));
    while i < ups.len()
        invariant
            uv == opt_bytes(ups@),
            cv == opt_bytes(cands@),
            i <= ups.len(),
            out@.map_values(|g: MediaGroupedByStem| g@) + groups_from(
                uv,
                i as int,
                processed@.map_values(|v: Vec<u8>| v@),
                num_view(num),
                cv,
                opts,
            ) == spec_group_media(uv, cv, opts),
        decreases ups.len() - i,
    {
        let ghost pv = processed@.map_values(|v: Vec<u8>| v@);
        let ghost nv: Option<MediaNumberView> = num_view(num);
        let ghost before = out@.map_values(|g: MediaGroupedByStem| g@);
        let ghost step = group_step(pv, nv, uv[i as int], cv, opts);
        assert(groups_from(uv, i as int, pv, nv, cv, opts) == match step.2 {
            Some(gv) => seq![gv] + groups_from(uv, i + 1, step.0, step.1, cv, opts),
            None => groups_from(uv, i + 1, step.0, step.1, cv, opts),
        });
        match &ups[i] {
            None => {},
            Some(u) => {
                if !contains_bytes(&processed, u.as_slice()) {
                    match &mut num {
                        Some(n) => {
                            n.upd(u.as_slice());
                        },
                        None => {},
                    }
                    let mut keep = true;
                    match &num {
                        Some(n) => match opts.range {
                            Some(rg) => {
                                if !rg.contains(n.to_usize()) {
                                    keep = false;
                                }
                            },
                            None => {},
                        },
                        None => {},
                    }
                    if keep {
                        let files = matching_files(cands, u.as_slice());
                        if opts.solo || files.len() >= 2 {
                            let middle = match &num {
                                Some(n) => if opts.out_need_num {
                                    digit_bytes(n.as_str())
                                } else {
                                    copy_bytes(u.as_slice())
                                },
                                None => copy_bytes(u.as_slice()),
                            };
                            processed.push(copy_bytes(u.as_slice()));
                            assert(processed@.map_values(|v: Vec<u8>| v@) =~= pv.push(u@));
                            let g = MediaGroupedByStem {
                                files,
                                out_name_middle: middle,
                                stem: copy_bytes(u.as_slice()),
                            };
                            out.push(g);
                            assert(out@.map_values(|g: MediaGroupedByStem| g@) =~= before.push(
                                step.2->0,
                            ));
                            assert(before.push(step.2->0) + groups_from(
                                uv,
                                i + 1,
                                step.0,
                                step.1,
                                cv,
                                opts,
                            ) =~= before + (seq![step.2->0] + groups_from(
                                uv,
                                i + 1,
                                step.0,
                                step.1,
                                cv,
                                opts,
                            )));
                        }
                    }
                }
            },
        }
        i = i + 1;
    }
    assert(out@.map_values(|g: MediaGroupedByStem| g@) + groups_from(
        uv,
        ups.len() as int,
        processed@.map_values(|v: Vec<u8>| v@),
        num_view(num),
        cv,
        opts,
    ) =~= out@.map_values(|g: MediaGroupedByStem| g@));
    out
}

/// Some candidate stem begins some of the input stems.
pub open spec fn any_stem_prefix(cands: Seq<Option<Seq<u8>>>, stems: Seq<Seq<u8>>) -> bool {
    exists|i: int, j: int|
        0 <= i < cands.len() && 0 <= j < stems.len() && #[trigger] cands[i] is Some && is_prefix(
            cands[i]->0,
            #[trigger] stems[j],
        )
}

/// A directory holds media of the input: the stem of one of its media files
/// (`cands`, as listed) begins the stem of an input file.
pub fn dir_has_input_media(cands: &Vec<Option<Vec<u8>>>, stems: &Vec<Vec<u8>>) -> (r: bool)
    ensures
        r == any_stem_prefix(opt_bytes(cands@), stems@.map_values(|v: Vec<u8>| v@)),
{
    let ghost cv = opt_bytes(cands@);
    let ghost sv = stems@.map_values(|v: Vec<u8>| v@);
    let mut i: usize = 0;
    while i < cands.len()
        invariant
            cv == opt_bytes(cands@),
            sv == stems@.map_values(|v: Vec<u8>| v@),
            i <= cands.len(),
            forall|a: int, b: int|
                0 <= a < i && 0 <= b < sv.len() && #[trigger] cv[a] is Some ==> !is_prefix(
                    cv[a]->0,
                    #[trigger] sv[b],
                ),
        decreases cands.len() - i,
    {
        match &cands[i] {
            Some(up) => {
                let mut j: usize = 0;
                while j < stems.len()
                    invariant
                        cv == opt_bytes(cands@),
                        sv == stems@.map_values(|v: Vec<u8>| v@),
                        i < cands.len(),
                        cands@[i as int] == Some(*up),
                        j <= stems.len(),
                        forall|b: int| 0 <= b < j ==> !is_prefix(up@, #[trigger] sv[b]),
                    decreases stems.len() - j,
                {
                    if bytes_starts_with(up.as_slice(), stems[j].as_slice()) {
                        assert(cv[i as int] is Some && is_prefix(cv[i as int]->0, sv[j as int]));
                        return true;
                    }
                    j = j + 1;
                }
            },
            None => {},
        }
        i = i + 1;
    }
    false
}

} // verus!
