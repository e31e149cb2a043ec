//! Byte-sequence helpers shared by the framer and the decoder: searching for a
//! separator, trimming ASCII whitespace, and comparing slices.
use vstd::prelude::*;

verus! {

use vstd::slice::slice_subrange;
use vstd::slice::slice_to_vec;

/// First index at which `b` occurs in `s`, or `s.len()` when `b` does not occur.
pub open spec fn spec_find(s: Seq<u8>, b: u8) -> int
    decreases s.len(),
{
    if s.len() == 0 {
        0
    } else if s[0] == b {
        0
    } else {
        1 + spec_find(s.drop_first(), b)
    }
}

/// `spec_find` returns the first occurrence of `b`, or the length when absent.
pub proof fn lemma_spec_find(s: Seq<u8>, b: u8)
    ensures
        0 <= spec_find(s, b) <= s.len(),
        spec_find(s, b) < s.len() ==> s[spec_find(s, b)] == b,
        forall|j: int| 0 <= j < spec_find(s, b) ==> s[j] != b,
    decreases s.len(),
{
    if s.len() == 0 {
    } else if s[0] == b {
    } else {
        lemma_spec_find(s.drop_first(), b);
        assert forall|j: int| 0 <= j < spec_find(s, b) implies s[j] != b by {
            if j > 0 {
                assert(s[j] == s.drop_first()[j - 1]);
            }
        }
    }
}

/// True when `b` occurs somewhere in `s`.
pub open spec fn contains_byte(s: Seq<u8>, b: u8) -> bool {
    spec_find(s, b) < s.len()
}

/// Index of the first occurrence of `b` in `s`, or `s.len()` when absent.
pub fn find_byte(s: &[u8], b: u8) -> (r: usize)
    ensures
        r == spec_find(s@, b),
{
    proof {
        lemma_spec_find(s@, b);
    }
    let n: usize = s.len();
    let mut i: usize = 0;
    while i < n
        invariant
            n == s@.len(),
            0 <= i <= n,
            forall|j: int| 0 <= j < i ==> s@[j] != b,
            0 <= spec_find(s@, b) <= s@.len(),
            spec_find(s@, b) < s@.len() ==> s@[spec_find(s@, b)] == b,
            forall|j: int| 0 <= j < spec_find(s@, b) ==> s@[j] != b,
        decreases n - i,
    {
        if s[i] == b {
            proof {
                // the first occurrence is neither before i (scanned) nor after (s[i] hits)
                if spec_find(s@, b) < i {
                    assert(s@[spec_find(s@, b)] != b);
                }
            }
            return i;
        }
        i += 1;
    }
    proof {
        if spec_find(s@, b) < s@.len() {
            assert(s@[spec_find(s@, b)] != b);
        }
    }
    n
}

/// The part of `s` before the first occurrence of `b` (all of `s` when absent).
pub open spec fn split_before(s: Seq<u8>, b: u8) -> Seq<u8> {
    s.take(spec_find(s, b))
}

/// The part of `s` after the first occurrence of `b` (empty when absent).
pub open spec fn split_after(s: Seq<u8>, b: u8) -> Seq<u8> {
    if contains_byte(s, b) {
        s.skip(spec_find(s, b) + 1)
    } else {
        Seq::empty()
    }
}

/// Splits `s` at the first occurrence of `b`: the pieces before and after the
/// separator, the separator itself dropped.  Without an occurrence the first
/// piece is all of `s` and the second is empty.
pub fn split_at_byte(s: &[u8], b: u8) -> (r: (Vec<u8>, Vec<u8>))
    ensures
        r.0@ == split_before(s@, b),
        r.1@ == split_after(s@, b),
{
    proof {
        lemma_spec_find(s@, b);
    }
    let i: usize = find_byte(s, b);
    let head: Vec<u8> = slice_to_vec(slice_subrange(s, 0, i));
    if i < s.len() {
        let tail: Vec<u8> = slice_to_vec(slice_subrange(s, i + 1, s.len()));
        proof {
            assert(tail@ =~= split_after(s@, b));
        }
        (head, tail)
    } else {
        let tail: Vec<u8> = Vec::new();
        proof {
            assert(tail@ =~= split_after(s@, b));
        }
        (head, tail)
    }
}

/// True when the two byte slices hold the same bytes.
pub fn bytes_eq(a: &[u8], b: &[u8]) -> (r: bool)
    ensures
        r <==> a@ == b@,
{
    if a.len() != b.len() {
        assert(a@.len() != b@.len());
        return false;
    }
    let n: usize = a.len();
    let mut i: usize = 0;
    while i < n
        invariant
            n == a@.len() == b@.len(),
            0 <= i <= n,
            forall|j: int| 0 <= j < i ==> a@[j] == b@[j],
        decreases n - i,
    {
        if a[i] != b[i] {
            return false;
        }
        i += 1;
    }
    proof {
        assert(a@ =~= b@);
    }
    true
}

/// ASCII whitespace: space, tab, line feed, form feed, carriage return.
pub open spec fn is_ascii_ws(b: u8) -> bool {
    b == 0x20 || b == 0x09 || b == 0x0a || b == 0x0c || b == 0x0d
}

/// Exec mirror of `is_ascii_ws`.
pub fn ascii_ws(b: u8) -> (r: bool)
    ensures
        r == is_ascii_ws(b),
{
    b == 0x20 || b == 0x09 || b == 0x0a || b == 0x0c || b == 0x0d
}

/// `s` with its leading ASCII whitespace removed.
pub open spec fn trim_front(s: Seq<u8>) -> Seq<u8>
    decreases s.len(),
{
    if s.len() > 0 && is_ascii_ws(s[0]) {
        trim_front(s.drop_first())
    } else {
        s
    }
}

/// `s` with its trailing ASCII whitespace removed.
pub open spec fn trim_back(s: Seq<u8>) -> Seq<u8>
    decreases s.len(),
{
    if s.len() > 0 && is_ascii_ws(s.last()) {
        trim_back(s.drop_last())
    } else {
        s
    }
}

/// `s` with leading and trailing ASCII whitespace removed.
pub open spec fn spec_trim(s: Seq<u8>) -> Seq<u8> {
    trim_back(trim_front(s))
}

/// `trim_front` keeps exactly the suffix from the first non-whitespace byte on.
proof fn lemma_trim_front_skip(s: Seq<u8>, lo: int)
    requires
        0 <= lo <= s.len(),
        forall|j: int| 0 <= j < lo ==> is_ascii_ws(s[j]),
        lo < s.len() ==> !is_ascii_ws(s[lo]),
    ensures
        trim_front(s) =~= s.skip(lo),
    decreases s.len(),
{
    if lo == 0 {
        assert(s.skip(0) =~= s);
    } else {
        let t = s.drop_first();
        assert(forall|j: int| 0 <= j < lo - 1 ==> is_ascii_ws(t[j]));
        lemma_trim_front_skip(t, lo - 1);
        assert(t.skip(lo - 1) =~= s.skip(lo));
    }
}

/// `trim_back` keeps exactly the prefix up to the last non-whitespace byte.
proof fn lemma_trim_back_take(s: Seq<u8>, hi: int)
    requires
        0 <= hi <= s.len(),
        forall|j: int| hi <= j < s.len() ==> is_ascii_ws(s[j]),
        hi > 0 ==> !is_ascii_ws(s[hi - 1]),
    ensures
        trim_back(s) =~= s.take(hi),
    decreases s.len(),
{
    if hi == s.len() {
        assert(s.take(hi) =~= s);
    } else {
        let t = s.drop_last();
        assert(forall|j: int| hi <= j < t.len() ==> is_ascii_ws(t[j]));
        lemma_trim_back_take(t, hi);
        assert(t.take(hi) =~= s.take(hi));
    }
}

/// Copy of `s` with leading and trailing ASCII whitespace removed.
pub fn trim(s: &[u8]) -> (r: Vec<u8>)
    ensures
        r@ == spec_trim(s@),
{
    let n: usize = s.len();
    let mut lo: usize = 0;
    while lo < n && ascii_ws(s[lo])
        invariant
            n == s@.len(),
            0 <= lo <= n,
            forall|j: int| 0 <= j < lo ==> is_ascii_ws(s@[j]),
        decreases n - lo,
    {
        lo += 1;
    }
    proof {
        lemma_trim_front_skip(s@, lo as int);
    }
    let ghost t: Seq<u8> = s@.skip(lo as int);
    let mut hi: usize = n;
    while hi > lo && ascii_ws(s[hi - 1])
        invariant
            n == s@.len(),
            0 <= lo <= hi <= n,
            forall|j: int| hi <= j < n ==> is_ascii_ws(s@[j]),
        decreases hi,
    {
        hi -= 1;
    }
    proof {
        assert(forall|j: int| hi - lo <= j < t.len() ==> is_ascii_ws(t[j]));
        lemma_trim_back_take(t, hi - lo);
    }
    let r: Vec<u8> = slice_to_vec(slice_subrange(s, lo, hi));
    proof {
        assert(r@ =~= t.take(hi - lo));
    }
    r
}

} // verus!
