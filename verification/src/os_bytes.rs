//! Prefix checks and prefix removal on the encoded bytes of OS strings.
use vstd::prelude::*;

verus! {

/// `prefix` is a prefix of `longer`.
pub open spec fn is_prefix(prefix: Seq<u8>, longer: Seq<u8>) -> bool {
    prefix.len() <= longer.len() && longer.take(prefix.len() as int) == prefix
}

/// Returns `true` if the bytes `longer` start with the bytes `prefix`.
pub fn bytes_starts_with(prefix: &[u8], longer: &[u8]) -> (r: bool)
    ensures
        r == is_prefix(prefix@, longer@),
{
    if prefix.len() > longer.len() {
        return false;
    }
    let mut i: usize = 0;
    while i < prefix.len()
        invariant
            prefix.len() <= longer.len(),
            i <= prefix.len(),
            forall|j: int| 0 <= j < i ==> prefix@[j] == longer@[j],
        decreases prefix.len() - i,
    {
        if prefix[i] != longer[i] {
            assert(longer@.take(prefix.len() as int)[i as int] != prefix@[i as int]);
            return false;
        }
        i = i + 1;
    }
    assert(longer@.take(prefix.len() as int) =~= prefix@);
    true
}

/// Returns the bytes of `longer` that follow `prefix`, or `None` when
/// `longer` does not start with `prefix`.
pub fn bytes_tail(prefix: &[u8], longer: &[u8]) -> (r: Option<Vec<u8>>)
    ensures
        r is Some <==> is_prefix(prefix@, longer@),
        r matches Some(t) ==> t@ == longer@.skip(prefix.len() as int),
{
    if !bytes_starts_with(prefix, longer) {
        return None;
    }
    let mut out: Vec<u8> = Vec::new();
    let mut i: usize = prefix.len();
    while i < longer.len()
        invariant
            prefix.len() <= i <= longer.len(),
            out@ == longer@.subrange(prefix.len() as int, i as int),
        decreases longer.len() - i,
    {
        out.push(longer[i]);
        i = i + 1;
    }
    assert(out@ =~= longer@.skip(prefix.len() as int));
    Some(out)
}

/// Law: a prefix followed by the tail taken after it gives back the whole.
pub proof fn lemma_prefix_tail_rejoin(prefix: Seq<u8>, longer: Seq<u8>)
    requires
        is_prefix(prefix, longer),
    ensures
        prefix + longer.skip(prefix.len() as int) == longer,
{
    assert(prefix + longer.skip(prefix.len() as int) =~= longer);
}

} // verus!
