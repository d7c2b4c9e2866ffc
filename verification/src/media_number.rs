//! Numbers found in file names, tracked across names of one length so
//! that the number that changes between episodes is the one reported.
use vstd::prelude::*;
use crate::text::push_char;

verus! {

/// An ASCII decimal digit byte.
pub open spec fn is_digit(b: u8) -> bool {
    48 <= b <= 57
}

/// The characters of ASCII bytes.
pub open spec fn digit_chars(b: Seq<u8>) -> Seq<char> {
    b.map_values(|x: u8| x as char)
}

/// The maximal runs of ASCII digits of `b`, left to right: each as its
/// digits, its first index and the index just past it.
pub open spec fn digit_runs(b: Seq<u8>) -> Seq<(Seq<u8>, int, int)>
    decreases b.len(),
{
    if b.len() == 0 {
        seq![]
    } else {
        let p = b.drop_last();
        let r = digit_runs(p);
        let x = b.last();
        if !is_digit(x) {
            r
        } else if p.len() > 0 && is_digit(p.last()) && r.len() > 0 {
            r.update(r.len() - 1, (r.last().0.push(x), r.last().1, b.len() as int))
        } else {
            r.push((seq![x], p.len() as int, b.len() as int))
        }
    }
}

/// The first index `i >= from` of `new` whose entry differs from `old` or is
/// past its end.
pub open spec fn first_mismatch_from(
    new: Seq<(Seq<u8>, int, int)>,
    old: Seq<(Seq<u8>, int, int)>,
    from: int,
) -> Option<int>
    decreases new.len() - from,
{
    if from < 0 || from >= new.len() {
        None
    } else if from >= old.len() || new[from] != old[from] {
        Some(from)
    } else {
        first_mismatch_from(new, old, from + 1)
    }
}

/// The abstract state of a [`MediaNumber`].
pub struct MediaNumberView {
    pub len_raw_bytes: nat,
    pub borders: Seq<(Seq<u8>, int, int)>,
    pub idx: Option<int>,
    pub s: Seq<char>,
}

/// The state built from scratch for the bytes `b`: its runs, no index, and
/// the first run as the number.
pub open spec fn spec_from_bytes(b: Seq<u8>) -> MediaNumberView {
    let runs = digit_runs(b);
    MediaNumberView {
        len_raw_bytes: b.len(),
        borders: runs,
        idx: None,
        s: if runs.len() > 0 { digit_chars(runs[0].0) } else { Seq::empty() },
    }
}

/// The value of a sequence of decimal digits.
pub open spec fn digits_value(s: Seq<char>) -> nat
    decreases s.len(),
{
    if s.len() == 0 {
        0
    } else {
        digits_value(s.drop_last()) * 10 + ((s.last() as u32) - 48) as nat
    }
}

/// Stores the numbers found in a file name.
///
/// The number reported is, for a name of a new length, the first number of
/// it; for further names of the same length, the number at the position
/// that changed.
#[derive(Debug)]
pub struct MediaNumber {
    len_raw_bytes: usize,
    s_nums_borders: Vec<(Vec<u8>, usize, usize)>,
    idx: Option<usize>,
    s: String,
}

/// The abstract view of one stored run.
pub open spec fn entry_view(e: (Vec<u8>, usize, usize)) -> (Seq<u8>, int, int) {
    (e.0@, e.1 as int, e.2 as int)
}

impl View for MediaNumber {
    type V = MediaNumberView;

    closed spec fn view(&self) -> MediaNumberView {
        MediaNumberView {
            len_raw_bytes: self.len_raw_bytes as nat,
            borders: self.s_nums_borders@.map_values(|e: (Vec<u8>, usize, usize)| entry_view(e)),
            idx: match self.idx {
                Some(i) => Some(i as int),
                None => None,
            },
            s: self.s@,
        }
    }
}

impl MediaNumberView {
    /// Every stored run lies inside a name of the stored length, and the
    /// stored index points at a stored run.
    pub open spec fn wf(self) -> bool {
        &&& forall|i: int|
            0 <= i < self.borders.len() ==> {
                let e = #[trigger] self.borders[i];
                0 <= e.1 < e.2 <= self.len_raw_bytes
            }
        &&& self.idx matches Some(k) ==> 0 <= k < self.borders.len()
        &&& forall|k: int| 0 <= k < self.s.len() ==> '0' <= #[trigger] self.s[k] <= '9'
    }
}

/// The state after [`MediaNumber::upd`] with the bytes `b` of a new name.
pub open spec fn spec_upd(o: MediaNumberView, b: Seq<u8>) -> MediaNumberView {
    if b.len() != o.len_raw_bytes {
        spec_from_bytes(b)
    } else if o.idx matches Some(k) && forall|j: int|
        o.borders[k].1 <= j < o.borders[k].2 ==> is_digit(#[trigger] b[j]) {
        MediaNumberView { s: digit_chars(b.subrange(o.borders[o.idx->0].1, o.borders[o.idx->0].2)), ..o }
    } else {
        let runs = digit_runs(b);
        match first_mismatch_from(runs, o.borders, 0) {
            Some(k) => MediaNumberView {
                len_raw_bytes: o.len_raw_bytes,
                borders: runs,
                idx: Some(k),
                s: digit_chars(runs[k].0),
            },
            None => MediaNumberView {
                len_raw_bytes: o.len_raw_bytes,
                borders: runs,
                idx: None,
                s: Seq::empty(),
            },
        }
    }
}

/// The runs lie inside the bytes, are made of digits, are nonempty, and
/// the last one reaches the end exactly when the last byte is a digit.
proof fn lemma_digit_runs_bounds(b: Seq<u8>)
    ensures
        forall|i: int|
            0 <= i < digit_runs(b).len() ==> {
                let e = #[trigger] digit_runs(b)[i];
                0 <= e.1 < e.2 <= b.len() && e.0 == b.subrange(e.1, e.2) && e.0.len() > 0
                    && forall|k: int| 0 <= k < e.0.len() ==> is_digit(#[trigger] e.0[k])
            },
        b.len() > 0 && is_digit(b.last()) ==> digit_runs(b).len() > 0 && digit_runs(b).last().2
            == b.len(),
        digit_runs(b).len() > 0 ==> digit_runs(b).last().2 <= b.len(),
    decreases b.len(),
{
    if b.len() > 0 {
        let p = b.drop_last();
        lemma_digit_runs_bounds(p);
        let r = digit_runs(p);
        assert forall|i: int| 0 <= i < digit_runs(b).len() implies {
            let e = #[trigger] digit_runs(b)[i];
            0 <= e.1 < e.2 <= b.len() && e.0 == b.subrange(e.1, e.2) && e.0.len() > 0
                && forall|k: int| 0 <= k < e.0.len() ==> is_digit(#[trigger] e.0[k])
        } by {
            let e = digit_runs(b)[i];
            if i < r.len() && !(is_digit(b.last()) && p.len() > 0 && is_digit(p.last()) && r.len()
                > 0 && i == r.len() - 1) {
                assert(e == r[i]);
                assert(e.0 =~= b.subrange(e.1, e.2));
            } else if is_digit(b.last()) && p.len() > 0 && is_digit(p.last()) && r.len() > 0 {
                let l = r.last();
                assert(l == r[r.len() - 1]);
                assert(l.2 == p.len());
                assert(e == (l.0.push(b.last()), l.1, b.len() as int));
                assert(e.0 =~= b.subrange(e.1, e.2));
                assert forall|k: int| 0 <= k < e.0.len() implies is_digit(#[trigger] e.0[k]) by {
                    if k < l.0.len() {
                        assert(e.0[k] == l.0[k]);
                    }
                }
            } else {
                assert(e == (seq![b.last()], p.len() as int, b.len() as int));
                assert(e.0 =~= b.subrange(e.1, e.2));
            }
        }
    }
}

/// The runs of a prefix extended by one byte.
proof fn lemma_digit_runs_step(b: Seq<u8>, i: int)
    requires
        0 <= i < b.len(),
    ensures
        digit_runs(b.take(i + 1)) == ({
            let r = digit_runs(b.take(i));
            if !is_digit(b[i]) {
                r
            } else if i > 0 && is_digit(b[i - 1]) && r.len() > 0 {
                r.update(r.len() - 1, (r.last().0.push(b[i]), r.last().1, i + 1))
            } else {
                r.push((seq![b[i]], i, i + 1))
            }
        }),
{
    let t = b.take(i + 1);
    assert(t.drop_last() =~= b.take(i));
    assert(t.last() == b[i]);
    if i > 0 {
        assert(b.take(i).last() == b[i - 1]);
    }
}

/// Maximal runs of ASCII digits of `bytes`, each with its first index and
/// the index just past it.
fn s_nums_borders_from_bytes(bytes: &[u8]) -> (r: Vec<(Vec<u8>, usize, usize)>)
    ensures
        r@.map_values(|e: (Vec<u8>, usize, usize)| entry_view(e)) == digit_runs(bytes@),
{
    let mut out: Vec<(Vec<u8>, usize, usize)> = Vec::new();
    let mut i: usize = 0;
    assert(bytes@.take(0) =~= Seq::<u8>::empty());
    assert(out@.map_values(|e: (Vec<u8>, usize, usize)| entry_view(e)) =~= Seq::<(Seq<u8>, int, int)>::empty());
    while i < bytes.len()
        invariant
            i <= bytes.len(),
            out@.map_values(|e: (Vec<u8>, usize, usize)| entry_view(e)) == digit_runs(
                bytes@.take(i as int),
            ),
        decreases bytes.len() - i,
    {
        proof {
            lemma_digit_runs_step(bytes@, i as int);
        }
        let ghost old_out = out@;
        let ghost ov = old_out.map_values(|e: (Vec<u8>, usize, usize)| entry_view(e));
        let byte = bytes[i];
        if 48 <= byte && byte <= 57 {
            if i > 0 && 48 <= bytes[i - 1] && bytes[i - 1] <= 57 && out.len() > 0 {
                let (mut d, st, _end) = out.pop().unwrap();
                assert((d, st, _end) == old_out.last());
                d.push(byte);
                out.push((d, st, i + 1));
                assert(ov.last() == entry_view(old_out.last()));
                assert(out@.map_values(|e: (Vec<u8>, usize, usize)| entry_view(e)) =~= ov.update(
                    ov.len() - 1,
                    (ov.last().0.push(byte), ov.last().1, i + 1),
                ));
            } else {
                let mut d: Vec<u8> = Vec::new();
                d.push(byte);
                out.push((d, i, i + 1));
                assert(d@ =~= seq![byte]);
                assert(out@.map_values(|e: (Vec<u8>, usize, usize)| entry_view(e)) =~= ov.push(
                    (seq![byte], i as int, i + 1),
                ));
            }
        }
        i = i + 1;
    }
    assert(bytes@.take(bytes.len() as int) =~= bytes@);
    out
}

/// A `String` of the characters of ASCII bytes.
fn digits_string(b: &Vec<u8>) -> (r: String)
    ensures
        r@ == digit_chars(b@),
{
    let mut s = String::new();
    let mut i: usize = 0;
    while i < b.len()
        invariant
            i <= b.len(),
            s@ == digit_chars(b@.take(i as int)),
        decreases b.len() - i,
    {
        push_char(&mut s, b[i] as char);
        assert(digit_chars(b@.take(i + 1)) =~= digit_chars(b@.take(i as int)).push(b@[i as int] as char));
        i = i + 1;
    }
    assert(b@.take(b.len() as int) =~= b@);
    s
}

/// Equality of two stored runs.
fn entry_eq(a: &(Vec<u8>, usize, usize), b: &(Vec<u8>, usize, usize)) -> (r: bool)
    ensures
        r == (entry_view(*a) == entry_view(*b)),
{
    if a.1 != b.1 || a.2 != b.2 || a.0.len() != b.0.len() {
        return false;
    }
    let mut i: usize = 0;
    while i < a.0.len()
        invariant
            a.0.len() == b.0.len(),
            i <= a.0.len(),
            forall|k: int| 0 <= k < i ==> a.0@[k] == b.0@[k],
        decreases a.0.len() - i,
    {
        if a.0[i] != b.0[i] {
            return false;
        }
        i = i + 1;
    }
    assert(a.0@ =~= b.0@);
    true
}

/// The digits of `bytes` when all of them are digits.
fn get_s_num(bytes: &[u8], start: usize, end: usize) -> (r: Option<String>)
    requires
        start <= end <= bytes.len(),
    ensures
        (forall|k: int| start <= k < end ==> is_digit(#[trigger] bytes@[k])) ==> (r matches Some(s)
            && s@ == digit_chars(bytes@.subrange(start as int, end as int))),
        !(forall|k: int| start <= k < end ==> is_digit(#[trigger] bytes@[k])) ==> r is None,
{
    let mut v: Vec<u8> = Vec::new();
    let mut i: usize = start;
    while i < end
        invariant
            start <= i <= end <= bytes.len(),
            forall|k: int| start <= k < i ==> is_digit(#[trigger] bytes@[k]),
            v@ == bytes@.subrange(start as int, i as int),
        decreases end - i,
    {
        if !(48 <= bytes[i] && bytes[i] <= 57) {
            return None;
        }
        v.push(bytes[i]);
        assert(v@ =~= bytes@.subrange(start as int, i + 1));
        i = i + 1;
    }
    Some(digits_string(&v))
}

impl MediaNumber {
    /// The invariant that every media number keeps.
    #[verifier::type_invariant]
    closed spec fn inv(self) -> bool {
        self@.wf()
    }

    /// The invariant of a media number.
    pub open spec fn wf(&self) -> bool {
        self@.wf()
    }

    /// Builds the numbers of `bytes`; the number is its first run of
    /// digits, or empty.
    pub fn from_bytes(bytes: &[u8]) -> (r: MediaNumber)
        ensures
            r@ == spec_from_bytes(bytes@),
            r.wf(),
    {
        let borders = s_nums_borders_from_bytes(bytes);
        proof {
            lemma_digit_runs_bounds(bytes@);
        }
        let s = if borders.len() > 0 {
            assert(entry_view(borders@[0]) == digit_runs(bytes@)[0]);
            digits_string(&borders[0].0)
        } else {
            String::new()
        };
        let r = MediaNumber { len_raw_bytes: bytes.len(), s_nums_borders: borders, idx: None, s };
        assert(r@.borders == digit_runs(bytes@));
        r
    }

    /// The number, or the empty string.
    pub fn as_str(&self) -> (r: &str)
        ensures
            r@ == self@.s,
            self.wf(),
    {
        proof {
            use_type_invariant(self);
        }
        self.s.as_str()
    }

    /// The number as `usize`, or `0` when it is empty or does not fit.
    pub fn to_usize(&self) -> (r: usize)
        ensures
            self@.s.len() > 0 && digits_value(self@.s) <= usize::MAX ==> r == digits_value(self@.s),
            !(self@.s.len() > 0 && digits_value(self@.s) <= usize::MAX) ==> r == 0,
    {
        proof {
            use_type_invariant(self);
        }
        let cs = crate::text::chars_of(self.s.as_str());
        assert(cs@ == self@.s);
        assert(self@.wf());
        assert forall|k: int| 0 <= k < cs@.len() implies '0' <= #[trigger] cs@[k] <= '9' by {
            assert(cs@[k] == self@.s[k]);
        }
        if cs.len() == 0 {
            return 0;
        }
        let mut v: usize = 0;
        let mut i: usize = 0;
        while i < cs.len()
            invariant
                cs@ == self@.s,
                forall|k: int| 0 <= k < cs@.len() ==> '0' <= #[trigger] cs@[k] <= '9',
                i <= cs.len(),
                v == digits_value(cs@.take(i as int)),
            decreases cs.len() - i,
        {
            let d = (cs[i] as u32 - 48) as usize;
            assert(cs@.take(i + 1).drop_last() =~= cs@.take(i as int));
            assert(cs@.take(i + 1).last() == cs@[i as int]);
            proof {
                lemma_digits_value_mono(cs@, i as int + 1);
            }
            match v.checked_mul(10) {
                Some(m) => match m.checked_add(d) {
                    Some(n) => {
                        v = n;
                    },
                    None => {
                        return 0;
                    },
                },
                None => {
                    return 0;
                },
            }
            i = i + 1;
        }
        assert(cs@.take(cs.len() as int) =~= cs@);
        v
    }

    /// The first run of `new` that differs from the stored runs at its
    /// position, as its number and index; the empty number and no index when
    /// none differs.
    fn get_s_idx_from_mismatch_num(&self, new: &Vec<(Vec<u8>, usize, usize)>) -> (r: (
        String,
        Option<usize>,
    ))
        ensures
            ({
                let nv = new@.map_values(|e: (Vec<u8>, usize, usize)| entry_view(e));
                match first_mismatch_from(nv, self@.borders, 0) {
                    Some(k) => r.1 == Some(k as usize) && r.0@ == digit_chars(nv[k].0),
                    None => r.1 is None && r.0@ == Seq::<char>::empty(),
                }
            }),
    {
        let ghost nv = new@.map_values(|e: (Vec<u8>, usize, usize)| entry_view(e));
        let ghost ov = self@.borders;
        let mut i: usize = 0;
        while i < new.len()
            invariant
                nv == new@.map_values(|e: (Vec<u8>, usize, usize)| entry_view(e)),
                ov == self@.borders,
                ov == self.s_nums_borders@.map_values(|e: (Vec<u8>, usize, usize)| entry_view(e)),
                i <= new.len(),
                first_mismatch_from(nv, ov, 0) == first_mismatch_from(nv, ov, i as int),
            decreases new.len() - i,
        {
            if i >= self.s_nums_borders.len() || !entry_eq(&new[i], &self.s_nums_borders[i]) {
                return (digits_string(&new[i].0), Some(i));
            }
            i = i + 1;
        }
        (String::new(), None)
    }

    /// Updates the number from the bytes of a new name.
    ///
    /// - A name of another length: rebuilt from scratch.
    /// - A name of the same length whose digits sit where the stored index
    ///   points: the number is read there.
    /// - Otherwise: the runs are recomputed and the number is the first run
    ///   that differs from the previous runs.
    pub fn upd(&mut self, bytes: &[u8])
        ensures
            final(self).wf(),
            final(self)@ == spec_upd(old(self)@, bytes@),
            bytes@.len() != old(self)@.len_raw_bytes ==> final(self)@ == spec_from_bytes(bytes@),
            bytes@.len() == old(self)@.len_raw_bytes ==> ({
                let o = old(self)@;
                let reuse = o.idx matches Some(k) && forall|j: int|
                    o.borders[k].1 <= j < o.borders[k].2 ==> is_digit(#[trigger] bytes@[j]);
                if reuse {
                    let k = o.idx->0;
                    final(self)@ == MediaNumberView {
                        s: digit_chars(bytes@.subrange(o.borders[k].1, o.borders[k].2)),
                        ..o
                    }
                } else {
                    let runs = digit_runs(bytes@);
                    &&& final(self)@.len_raw_bytes == o.len_raw_bytes
                    &&& final(self)@.borders == runs
                    &&& match first_mismatch_from(runs, o.borders, 0) {
                        Some(k) => final(self)@.idx == Some(k) && final(self)@.s == digit_chars(
                            runs[k].0,
                        ),
                        None => final(self)@.idx is None && final(self)@.s == Seq::<char>::empty(),
                    }
                }
            }),
    {
        proof {
            use_type_invariant(&*self);
        }
        if self.len_raw_bytes != bytes.len() {
            *self = MediaNumber::from_bytes(bytes);
            return;
        }
        let ghost o = self@;
        match self.idx {
            Some(k) => {
                let start = self.s_nums_borders[k].1;
                let end = self.s_nums_borders[k].2;
                assert(entry_view(self.s_nums_borders@[k as int]) == o.borders[k as int]);
                assert(start as int == o.borders[k as int].1 && end as int == o.borders[k as int].2);
                match get_s_num(bytes, start, end) {
                    Some(s) => {
                        self.s = s;
                        assert(self@.borders =~= o.borders);
                        assert(self@.idx == o.idx);
                        assert(self@.len_raw_bytes == o.len_raw_bytes);
                        return;
                    },
                    None => {
                        assert(!(forall|j: int| o.borders[k as int].1 <= j < o.borders[k as int].2 ==> is_digit(#[trigger] bytes@[j])));
                    },
                }
            },
            None => {},
        }
        let borders = s_nums_borders_from_bytes(bytes);
        proof {
            lemma_digit_runs_bounds(bytes@);
            lemma_first_mismatch_bound(
                borders@.map_values(|e: (Vec<u8>, usize, usize)| entry_view(e)),
                o.borders,
                0,
            );
        }
        let (s, idx) = self.get_s_idx_from_mismatch_num(&borders);
        let ghost nv = borders@.map_values(|e: (Vec<u8>, usize, usize)| entry_view(e));
        let n_borders = borders.len();
        assert(nv.len() == n_borders);
        proof {
            if let Some(k) = first_mismatch_from(nv, o.borders, 0int) {
                assert(0 <= k < nv.len());
                assert(idx == Some(k as usize));
                assert((k as usize) as int == k);
            }
        }
        let len_raw_bytes = self.len_raw_bytes;
        *self = MediaNumber { len_raw_bytes, s_nums_borders: borders, idx, s };
        assert(self@.borders == nv);
        assert(nv == digit_runs(bytes@));
        assert(self@.len_raw_bytes == o.len_raw_bytes);
    }
}

/// A found mismatch lies within the new runs.
proof fn lemma_first_mismatch_bound(
    new: Seq<(Seq<u8>, int, int)>,
    old: Seq<(Seq<u8>, int, int)>,
    from: int,
)
    ensures
        first_mismatch_from(new, old, from) matches Some(k) ==> from <= k < new.len(),
    decreases new.len() - from,
{
    if 0 <= from < new.len() && !(from >= old.len() || new[from] != old[from]) {
        lemma_first_mismatch_bound(new, old, from + 1);
    }
}

/// The value of digits is at least the value of any prefix of them.
proof fn lemma_digits_value_mono(s: Seq<char>, n: int)
    requires
        0 <= n <= s.len(),
        forall|k: int| 0 <= k < s.len() ==> '0' <= #[trigger] s[k] <= '9',
    ensures
        digits_value(s.take(n)) <= digits_value(s),
    decreases s.len() - n,
{
    if n == s.len() {
        assert(s.take(n) =~= s);
    } else {
        assert(s.take(n + 1).drop_last() =~= s.take(n));
        assert(s.take(n + 1).last() == s[n]);
        lemma_digits_value_mono(s, n + 1);
    }
}

} // verus!
