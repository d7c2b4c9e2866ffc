//! The order of font attachments: one font per file stem, sorted by stem
//! case-insensitively (ASCII), then by the exact stem.
use vstd::prelude::*;
use crate::grouping::{bytes_eq, opt_bytes};
use crate::text::{ascii_lower_seq, chars_of, lower_ascii_char};

verus! {

/// Lexicographic comparison of two character sequences: `-1`, `0` or `1`;
/// a proper prefix comes first.
pub open spec fn lex_order(a: Seq<char>, b: Seq<char>) -> int
    decreases a.len(),
{
    if a.len() == 0 {
        if b.len() == 0 {
            0
        } else {
            -1
        }
    } else if b.len() == 0 {
        1
    } else if a[0] < b[0] {
        -1
    } else if a[0] > b[0] {
        1
    } else {
        lex_order(a.drop_first(), b.drop_first())
    }
}

/// The order of two font stems: by their ASCII lowercase form, then as
/// they are.
pub open spec fn font_order(a: Seq<char>, b: Seq<char>) -> int {
    let c = lex_order(ascii_lower_seq(a), ascii_lower_seq(b));
    if c != 0 {
        c
    } else {
        lex_order(a, b)
    }
}

/// Font `i` is the first with its stem: it has one, and no earlier font has
/// the same.
pub open spec fn is_first_stem(stems: Seq<Option<Seq<u8>>>, i: int) -> bool {
    &&& stems[i] is Some
    &&& forall|j: int| 0 <= j < i ==> stems[j] != stems[i]
}

/// Swapping the operands negates a comparison.
pub proof fn lemma_lex_antisym(a: Seq<char>, b: Seq<char>)
    ensures
        lex_order(a, b) == -lex_order(b, a),
        -1 <= lex_order(a, b) <= 1,
    decreases a.len(),
{
    if a.len() > 0 && b.len() > 0 && a[0] == b[0] {
        lemma_lex_antisym(a.drop_first(), b.drop_first());
    }
}

/// Sequences that compare equal are equal.
pub proof fn lemma_lex_zero(a: Seq<char>, b: Seq<char>)
    requires
        lex_order(a, b) == 0,
    ensures
        a == b,
    decreases a.len(),
{
    if a.len() > 0 {
        lemma_lex_zero(a.drop_first(), b.drop_first());
        assert(a =~= seq![a[0]] + a.drop_first());
        assert(b =~= seq![b[0]] + b.drop_first());
    } else {
        assert(a =~= b);
    }
}

/// The lexicographic order is transitive.
pub proof fn lemma_lex_trans(a: Seq<char>, b: Seq<char>, c: Seq<char>)
    requires
        lex_order(a, b) <= 0,
        lex_order(b, c) <= 0,
    ensures
        lex_order(a, c) <= 0,
    decreases a.len(),
{
    if a.len() > 0 && b.len() > 0 && c.len() > 0 && a[0] == b[0] && b[0] == c[0] {
        lemma_lex_trans(a.drop_first(), b.drop_first(), c.drop_first());
    }
}

/// Swapping the operands negates a font comparison, and equal stems are the
/// only ones that compare equal.
pub proof fn lemma_font_antisym(a: Seq<char>, b: Seq<char>)
    ensures
        font_order(a, b) == -font_order(b, a),
        -1 <= font_order(a, b) <= 1,
        font_order(a, b) == 0 <==> a == b,
{
    lemma_lex_antisym(ascii_lower_seq(a), ascii_lower_seq(b));
    lemma_lex_antisym(a, b);
    if font_order(a, b) == 0 {
        lemma_lex_zero(a, b);
    }
    if a == b {
        lemma_lex_antisym(a, a);
        lemma_lex_antisym(ascii_lower_seq(a), ascii_lower_seq(a));
    }
}

/// The font order is transitive.
pub proof fn lemma_font_trans(a: Seq<char>, b: Seq<char>, c: Seq<char>)
    requires
        font_order(a, b) <= 0,
        font_order(b, c) <= 0,
    ensures
        font_order(a, c) <= 0,
{
    let (la, lb, lc) = (ascii_lower_seq(a), ascii_lower_seq(b), ascii_lower_seq(c));
    lemma_lex_antisym(la, lb);
    lemma_lex_antisym(lb, lc);
    lemma_lex_antisym(la, lc);
    lemma_lex_trans(la, lb, lc);
    if lex_order(la, lc) == 0 {
        lemma_lex_zero(la, lc);
        if lex_order(la, lb) < 0 {
            lemma_lex_trans(lb, lc, la);
        }
        if lex_order(lb, lc) < 0 {
            lemma_lex_trans(lc, la, lb);
        }
        lemma_lex_trans(a, b, c);
    }
}

/// Lexicographic comparison of two character sequences.
fn lex_order_exec(a: &Vec<char>, b: &Vec<char>) -> (r: i8)
    ensures
        r as int == lex_order(a@, b@),
{
    let mut i: usize = 0;
    assert(a@.skip(0) =~= a@);
    assert(b@.skip(0) =~= b@);
    while i < a.len() && i < b.len()
        invariant
            i <= a.len(),
            i <= b.len(),
            forall|k: int| 0 <= k < i ==> a@[k] == b@[k],
            lex_order(a@, b@) == lex_order(a@.skip(i as int), b@.skip(i as int)),
        decreases a.len() - i,
    {
        if a[i] < b[i] {
            return -1;
        }
        if a[i] > b[i] {
            return 1;
        }
        assert(a@.skip(i as int).drop_first() =~= a@.skip(i + 1));
        assert(b@.skip(i as int).drop_first() =~= b@.skip(i + 1));
        i = i + 1;
    }
    if a.len() == b.len() {
        0
    } else if i == a.len() {
        -1
    } else {
        1
    }
}

/// The ASCII lowercase form of characters.
fn lower_chars(a: &Vec<char>) -> (r: Vec<char>)
    ensures
        r@ == ascii_lower_seq(a@),
{
    let mut v: Vec<char> = Vec::new();
    let mut i: usize = 0;
    while i < a.len()
        invariant
            i <= a.len(),
            v@ == ascii_lower_seq(a@.take(i as int)),
        decreases a.len() - i,
    {
        v.push(lower_ascii_char(a[i]));
        assert(ascii_lower_seq(a@.take(i + 1)) =~= ascii_lower_seq(a@.take(i as int)).push(
            crate::text::ascii_lower(a@[i as int]),
        ));
        i = i + 1;
    }
    assert(a@.take(a.len() as int) =~= a@);
    v
}

/// The font order of two stems.
fn font_order_exec(a: &Vec<char>, b: &Vec<char>) -> (r: i8)
    ensures
        r as int == font_order(a@, b@),
{
    let c = lex_order_exec(&lower_chars(a), &lower_chars(b));
    if c != 0 {
        c
    } else {
        lex_order_exec(a, b)
    }
}

/// Font `i` is the first with its stem.
fn first_stem(stems: &Vec<Option<Vec<u8>>>, i: usize) -> (r: bool)
    requires
        i < stems.len(),
    ensures
        r == is_first_stem(opt_bytes(stems@), i as int),
{
    let ghost sv = opt_bytes(stems@);
    let st = match &stems[i] {
        Some(st) => st,
        None => {
            return false;
        },
    };
    let mut j: usize = 0;
    while j < i
        invariant
            sv == opt_bytes(stems@),
            i < stems.len(),
            j <= i,
            stems@[i as int] == Some(*st),
            forall|k: int| 0 <= k < j ==> sv[k] != sv[i as int],
        decreases i - j,
    {
        match &stems[j] {
            Some(sj) => {
                if bytes_eq(sj.as_slice(), st.as_slice()) {
                    assert(sv[j as int] == sv[i as int]);
                    return false;
                }
            },
            None => {},
        }
        j = j + 1;
    }
    true
}

/// The fonts to attach, as indices, in order: of the fonts with equal stems
/// (encoded bytes, `stems`) only the first is kept, and fonts without stem
/// are dropped; the kept ones are sorted stably by [`font_order`] of their stem
/// text (`texts`, the empty text where the stem is not UTF-8).
pub fn filter_and_sort_fonts(stems: &Vec<Option<Vec<u8>>>, texts: &Vec<String>) -> (r: Vec<usize>)
    requires
        stems.len() == texts.len(),
    ensures
        forall|i: int|
            0 <= i < stems.len() ==> (r@.contains(i as usize) <==> is_first_stem(
                opt_bytes(stems@),
                i,
            )),
        forall|p: int| 0 <= p < r.len() ==> r@[p] < stems.len(),
        r@.no_duplicates(),
        forall|p: int, q: int|
            0 <= p < q < r.len() ==> font_order(texts@[r@[p] as int]@, texts@[r@[q] as int]@) <= 0,
        forall|p: int, q: int|
            0 <= p < q < r.len() && texts@[r@[p] as int]@ == texts@[r@[q] as int]@ ==> r@[p]
                < r@[q],
        forall|p: int, q: int|
            0 <= p < r.len() && 0 <= q < r.len() && p != q ==> opt_bytes(stems@)[r@[p] as int]
                != opt_bytes(stems@)[r@[q] as int],
{
    let ghost sv = opt_bytes(stems@);
    let mut keys: Vec<Vec<char>> = Vec::new();
    let mut k: usize = 0;
    while k < texts.len()
        invariant
            k <= texts.len(),
            keys.len() == k,
            forall|m: int| 0 <= m < k ==> (#[trigger] keys@[m])@ == texts@[m]@,
        decreases texts.len() - k,
    {
        keys.push(chars_of(texts[k].as_str()));
        k = k + 1;
    }
    let mut out: Vec<usize> = Vec::new();
    let mut i: usize = 0;
    while i < stems.len()
        invariant
            sv == opt_bytes(stems@),
            stems.len() == texts.len(),
            keys.len() == texts.len(),
            forall|m: int| 0 <= m < keys.len() ==> (#[trigger] keys@[m])@ == texts@[m]@,
            i <= stems.len(),
            forall|m: int| 0 <= m < i ==> (out@.contains(m as usize) <==> is_first_stem(sv, m)),
            forall|p: int| 0 <= p < out.len() ==> out@[p] < i,
            out@.no_duplicates(),
            forall|p: int, q: int|
                0 <= p < q < out.len() ==> font_order(
                    texts@[out@[p] as int]@,
                    texts@[out@[q] as int]@,
                ) <= 0,
            forall|p: int, q: int|
                0 <= p < q < out.len() && texts@[out@[p] as int]@ == texts@[out@[q] as int]@
                    ==> out@[p] < out@[q],
        decreases stems.len() - i,
    {
        if first_stem(stems, i) {
            let ghost old_out = out@;
            let ghost ki = texts@[i as int]@;
            let mut p: usize = out.len();
            while p > 0 && font_order_exec(&keys[out[p - 1]], &keys[i]) > 0
                invariant
                    out@ == old_out,
                    forall|m: int| 0 <= m < keys.len() ==> (#[trigger] keys@[m])@ == texts@[m]@,
                    keys.len() == texts.len(),
                    i < texts.len(),
                    ki == texts@[i as int]@,
                    forall|q: int| 0 <= q < out.len() ==> out@[q] < i,
                    p <= out.len(),
                    forall|q: int|
                        p <= q < out.len() ==> font_order(texts@[out@[q] as int]@, ki) > 0,
                decreases p,
            {
                p = p - 1;
            }
            proof {
                if p > 0 {
                    lemma_font_antisym(texts@[out@[p - 1] as int]@, ki);
                }
            }
            out.insert(p, i);
            assert(out@ =~= old_out.insert(p as int, i));
            proof {
                assert forall|a: int, b: int| 0 <= a < b < out.len() implies font_order(
                    texts@[out@[a] as int]@,
                    texts@[out@[b] as int]@,
                ) <= 0 by {
                    if b == p {
                        if a < p - 1 {
                            lemma_font_trans(
                                texts@[out@[a] as int]@,
                                texts@[out@[p - 1] as int]@,
                                ki,
                            );
                        }
                    } else if a == p {
                        lemma_font_antisym(texts@[out@[b] as int]@, ki);
                    }
                }
                assert forall|a: int, b: int|
                    0 <= a < b < out.len() && texts@[out@[a] as int]@ == texts@[out@[b]
                        as int]@ implies out@[a] < out@[b] by {
                    if a == p {
                        lemma_font_antisym(texts@[out@[b] as int]@, ki);
                    }
                }
                assert forall|m: int| 0 <= m < i + 1 implies (out@.contains(m as usize)
                    <==> is_first_stem(sv, m)) by {
                    if m < i {
                        if old_out.contains(m as usize) {
                            let w = choose|w: int| 0 <= w < old_out.len() && old_out[w] == m as usize;
                            if w < p {
                                assert(out@[w] == m as usize);
                            } else {
                                assert(out@[w + 1] == m as usize);
                            }
                        }
                        if out@.contains(m as usize) {
                            let w = choose|w: int| 0 <= w < out@.len() && out@[w] == m as usize;
                            if w < p {
                                assert(old_out[w] == m as usize);
                            } else if w > p {
                                assert(old_out[w - 1] == m as usize);
                            }
                        }
                    } else {
                        assert(out@[p as int] == i);
                    }
                }
            }
        } else {
            proof {
                assert forall|m: int| 0 <= m < i + 1 implies (out@.contains(m as usize)
                    <==> is_first_stem(sv, m)) by {
                    if m == i && out@.contains(m as usize) {
                        let w = choose|w: int| 0 <= w < out@.len() && out@[w] == m as usize;
                        assert(out@[w] < i);
                    }
                }
            }
        }
        i = i + 1;
    }
    assert forall|p: int, q: int|
        0 <= p < out.len() && 0 <= q < out.len() && p != q implies sv[out@[p] as int]
            != sv[out@[q] as int] by {
        let a = out@[p] as int;
        let b = out@[q] as int;
        assert(out@.contains(out@[p]));
        assert(out@.contains(out@[q]));
        assert(is_first_stem(sv, a));
        assert(is_first_stem(sv, b));
        assert(a != b);
    }
    out
}

} // verus!
