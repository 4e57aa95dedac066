//! Splitting byte strings at the first occurrence of a separator.

use vstd::prelude::*;
use vstd::slice::slice_to_vec;

verus! {

/// Whether `b` occurs nowhere in `s`.
pub open spec fn lacks(s: Seq<u8>, b: u8) -> bool {
    forall|i: int| 0 <= i < s.len() ==> #[trigger] s[i] != b
}

/// Whether `k` is where `b` first occurs in `s`; `s.len()` stands for "nowhere".
pub open spec fn is_position(s: Seq<u8>, b: u8, k: int) -> bool {
    &&& 0 <= k <= s.len()
    &&& lacks(s.take(k), b)
    &&& k < s.len() ==> s[k] == b
}

/// The index at which `b` first occurs in `s`, or `s.len()` when it does not occur.
pub open spec fn position(s: Seq<u8>, b: u8) -> int
    decreases s.len(),
{
    if s.len() == 0 || s[0] == b {
        0
    } else {
        1 + position(s.drop_first(), b)
    }
}

/// `position` finds the first occurrence.
pub proof fn lemma_position_is_first(s: Seq<u8>, b: u8)
    ensures
        is_position(s, b, position(s, b)),
    decreases s.len(),
{
    if s.len() == 0 || s[0] == b {
    } else {
        let tail = s.drop_first();
        lemma_position_is_first(tail, b);
        let k = position(tail, b);
        assert forall|i: int| 0 <= i < k + 1 implies #[trigger] s.take(k + 1)[i] != b by {
            if i > 0 {
                assert(tail.take(k)[i - 1] == s[i]);
            }
        }
    }
}

/// The first occurrence is unique.
pub proof fn lemma_position_unique(s: Seq<u8>, b: u8, k: int)
    requires
        is_position(s, b, k),
    ensures
        position(s, b) == k,
{
    lemma_position_is_first(s, b);
    let p = position(s, b);
    if p < k {
        assert(s.take(k)[p] == s[p]);
    } else if k < p {
        assert(s.take(p)[k] == s[k]);
    }
}

/// A string without `b`, then `b`, then anything, splits right behind the
/// first part.
pub proof fn lemma_split_joined(head: Seq<u8>, b: u8, tail: Seq<u8>)
    requires
        lacks(head, b),
    ensures
        position(head + seq![b] + tail, b) == head.len(),
        (head + seq![b] + tail).take(head.len() as int) == head,
        (head + seq![b] + tail).skip(head.len() as int + 1) == tail,
{
    let s = head + seq![b] + tail;
    let k = head.len() as int;
    assert(s.take(k) =~= head);
    assert(s.skip(k + 1) =~= tail);
    assert(s[k] == b);
    lemma_position_unique(s, b, k);
}

/// A string without `b` is left whole.
pub proof fn lemma_split_absent(s: Seq<u8>, b: u8)
    requires
        lacks(s, b),
    ensures
        position(s, b) == s.len(),
{
    assert(s.take(s.len() as int) =~= s);
    lemma_position_unique(s, b, s.len() as int);
}

/// A string is put together again from the two parts around a separator.
pub proof fn lemma_rejoin(s: Seq<u8>, k: int)
    requires
        0 <= k < s.len(),
    ensures
        s == s.take(k) + seq![s[k]] + s.skip(k + 1),
{
    assert(s =~= s.take(k) + seq![s[k]] + s.skip(k + 1));
}

/// Finds where `b` first occurs in `s`.
pub fn find_byte(s: &[u8], b: u8) -> (k: usize)
    ensures
        k == position(s@, b),
        is_position(s@, b, k as int),
{
    let mut i: usize = 0;
    while i < s.len() && s[i] != b
        invariant
            i <= s@.len(),
            lacks(s@.take(i as int), b),
        decreases s@.len() - i,
    {
        assert forall|j: int| 0 <= j < i + 1 implies #[trigger] s@.take(i + 1)[j] != b by {
            if j < i {
                assert(s@.take(i as int)[j] == s@[j]);
            }
        }
        i = i + 1;
    }
    proof {
        lemma_position_unique(s@, b, i as int);
    }
    i
}

/// The bytes of `s` before index `k`.
pub fn before(s: &[u8], k: usize) -> (r: &[u8])
    requires
        k <= s@.len(),
    ensures
        r@ == s@.take(k as int),
{
    vstd::slice::slice_subrange(s, 0, k)
}

/// The bytes of `s` behind index `k`.
pub fn behind(s: &[u8], k: usize) -> (r: &[u8])
    requires
        k < s@.len(),
    ensures
        r@ == s@.skip(k + 1),
{
    let n: usize = s.len();
    vstd::slice::slice_subrange(s, k + 1, n)
}

/// A fresh copy of `s`.
pub fn copy_of(s: &[u8]) -> (r: Vec<u8>)
    ensures
        r@ == s@,
{
    slice_to_vec(s)
}

/// Appends the bytes of `s` to `out`.
pub fn append(out: &mut Vec<u8>, s: &[u8])
    ensures
        final(out)@ == old(out)@ + s@,
{
    let mut i: usize = 0;
    while i < s.len()
        invariant
            i <= s@.len(),
            out@ == old(out)@ + s@.take(i as int),
        decreases s@.len() - i,
    {
        out.push(s[i]);
        assert(s@.take(i + 1) =~= s@.take(i as int).push(s@[i as int]));
        i = i + 1;
    }
    assert(s@.take(s@.len() as int) =~= s@);
}

/// Whether `a` and `b` hold the same bytes.
pub fn same_bytes(a: &[u8], b: &[u8]) -> (r: bool)
    ensures
        r == (a@ == b@),
{
    if a.len() != b.len() {
        return false;
    }
    let mut i: usize = 0;
    while i < a.len()
        invariant
            i <= a@.len(),
            a@.len() == b@.len(),
            a@.take(i as int) == b@.take(i as int),
        decreases a@.len() - i,
    {
        if a[i] != b[i] {
            return false;
        }
        assert(a@.take(i + 1) =~= a@.take(i as int).push(a@[i as int]));
        assert(b@.take(i + 1) =~= b@.take(i as int).push(b@[i as int]));
        i = i + 1;
    }
    assert(a@.take(a@.len() as int) =~= a@);
    assert(b@.take(b@.len() as int) =~= b@);
    true
}

} // verus!
