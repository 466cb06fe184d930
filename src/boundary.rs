use vstd::prelude::*;
use vstd::slice::slice_subrange;

verus! {

/// `i` is the position of the first zero byte of `s`.
pub open spec fn is_first_zero(s: Seq<u8>, i: int) -> bool {
    &&& 0 <= i < s.len()
    &&& s[i] == 0
    &&& forall|j: int| 0 <= j < i ==> s[j] != 0
}

/// `s` holds a zero byte.
pub open spec fn is_terminated(s: Seq<u8>) -> bool {
    exists|i: int| 0 <= i < s.len() && s[i] == 0
}

/// The bytes of `s` before its first zero byte.
pub open spec fn terminated_view(s: Seq<u8>) -> Seq<u8>
    recommends
        is_terminated(s),
{
    let i = choose|i: int| is_first_zero(s, i);
    s.subrange(0, i)
}

/// A terminated region has exactly one first zero byte.
proof fn lemma_first_zero_unique(s: Seq<u8>, i: int, k: int)
    requires
        is_first_zero(s, i),
        is_first_zero(s, k),
    ensures
        i == k,
{
    if i < k {
        assert(s[i] != 0);
    } else if k < i {
        assert(s[k] != 0);
    }
}

/// Position of the first zero byte of `buf`; `None` when `buf` holds none.
pub fn terminator_index(buf: &[u8]) -> (r: Option<usize>)
    ensures
        r matches Some(i) ==> is_first_zero(buf@, i as int),
        r is None <==> !is_terminated(buf@),
{
    let mut i: usize = 0;
    while i < buf.len()
        invariant
            i <= buf@.len(),
            forall|j: int| 0 <= j < i ==> buf@[j] != 0,
        decreases buf@.len() - i,
    {
        if buf[i] == 0 {
            return Some(i);
        }
        i = i + 1;
    }
    None
}

/// The bytes of `s` before its first zero byte are `s` up to position `i`
/// exactly when `i` is that first zero.
pub proof fn lemma_view_at_first_zero(s: Seq<u8>, i: int)
    requires
        is_first_zero(s, i),
    ensures
        is_terminated(s),
        terminated_view(s) == s.subrange(0, i),
{
    let k = choose|k: int| is_first_zero(s, k);
    lemma_first_zero_unique(s, i, k);
}

/// Non-owning view of the host-supplied bytes in `buf` up to, not
/// including, the first zero byte. A region with no terminator is refused
/// (`None`) rather than read past its end.
pub fn view_of(buf: &[u8]) -> (r: Option<&[u8]>)
    ensures
        r is None <==> !is_terminated(buf@),
        r matches Some(v) ==> v@ == terminated_view(buf@),
{
    match terminator_index(buf) {
        Some(i) => {
            proof {
                lemma_view_at_first_zero(buf@, i as int);
            }
            Some(slice_subrange(buf, 0, i))
        },
        None => None,
    }
}

/// A region holding the bytes `bytes` followed by a terminator, with no
/// zero among `bytes`, decodes to exactly `bytes`.
pub proof fn lemma_view_of_terminated(bytes: Seq<u8>)
    requires
        forall|j: int| 0 <= j < bytes.len() ==> bytes[j] != 0,
    ensures
        is_terminated(bytes.push(0)),
        terminated_view(bytes.push(0)) == bytes,
{
    let s = bytes.push(0);
    assert(is_first_zero(s, bytes.len() as int));
    lemma_view_at_first_zero(s, bytes.len() as int);
    assert(s.subrange(0, bytes.len() as int) =~= bytes);
}

/// A zero byte embedded in the payload cuts the view short: for a payload
/// `bytes` followed by a terminator, the view is `bytes` up to its first
/// zero byte, and never extends past it.
pub proof fn lemma_view_truncated_at_embedded_zero(bytes: Seq<u8>, i: int)
    requires
        is_first_zero(bytes, i),
    ensures
        is_terminated(bytes.push(0)),
        terminated_view(bytes.push(0)) == bytes.subrange(0, i),
{
    let s = bytes.push(0);
    assert(is_first_zero(s, i));
    lemma_view_at_first_zero(s, i);
    assert(s.subrange(0, i) =~= bytes.subrange(0, i));
}

} // verus!
