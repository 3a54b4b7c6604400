//! Verified searching and trimming over byte strings.
//!
//! The transcript buffer and the password-capture heuristic work on the
//! bytes of lossily decoded terminal output; every marker they look for is
//! ASCII, so plain byte-level search is exact.

use vstd::prelude::*;

verus! {

/// The needle `n` occurs in `h` starting at index `i`.
pub open spec fn is_match_at(h: Seq<u8>, n: Seq<u8>, i: int) -> bool {
    0 <= i && i + n.len() <= h.len() && h.subrange(i, i + n.len() as int) == n
}

/// The needle `n` occurs somewhere in `h`.
pub open spec fn contains_seq(h: Seq<u8>, n: Seq<u8>) -> bool {
    exists|i: int| is_match_at(h, n, i)
}

/// `i` is the last occurrence of `n` in `h`.
pub open spec fn is_last_match(h: Seq<u8>, n: Seq<u8>, i: int) -> bool {
    is_match_at(h, n, i) && forall|j: int| j > i ==> !is_match_at(h, n, j)
}

/// `e` is the first newline at or after `start` in `t`.
pub open spec fn first_newline_at(t: Seq<u8>, start: int, e: int) -> bool {
    start <= e < t.len() && t[e] == 10u8 && forall|j: int| start <= j < e ==> t[j] != 10u8
}

/// A byte counted as whitespace: the ASCII range of the characters that
/// Unicode treats as white space (tab through carriage return, and space).
/// This is a deliberate narrowing: white space beyond ASCII in the decoded
/// text — a no-break space, say — is treated as ordinary text, both by the
/// whitespace-swallow test after a password injection and by the final
/// trim of a recovered password.
pub open spec fn is_ws(b: u8) -> bool {
    b == 32u8 || (9u8 <= b && b <= 13u8)
}

/// Every byte of `s` is whitespace.
pub open spec fn all_ws(s: Seq<u8>) -> bool {
    forall|i: int| 0 <= i < s.len() ==> is_ws(s[i])
}

/// `s` without its leading whitespace.
pub open spec fn trim_left_spec(s: Seq<u8>) -> Seq<u8>
    decreases s.len(),
{
    if s.len() > 0 && is_ws(s[0]) {
        trim_left_spec(s.drop_first())
    } else {
        s
    }
}

/// `s` without its trailing whitespace.
pub open spec fn trim_right_spec(s: Seq<u8>) -> Seq<u8>
    decreases s.len(),
{
    if s.len() > 0 && is_ws(s[s.len() - 1]) {
        trim_right_spec(s.drop_last())
    } else {
        s
    }
}

/// `s` without leading and trailing whitespace.
pub open spec fn trim_spec(s: Seq<u8>) -> Seq<u8> {
    trim_right_spec(trim_left_spec(s))
}

/// Decides whether `n` occurs in `h` at index `i`.
pub fn match_at(h: &Vec<u8>, n: &Vec<u8>, i: usize) -> (r: bool)
    requires
        i + n@.len() <= h@.len(),
    ensures
        r == is_match_at(h@, n@, i as int),
{
    let n_len = n.len();
    let h_len = h.len();
    let mut k: usize = 0;
    while k < n_len
        invariant
            n_len == n@.len(),
            h_len == h@.len(),
            i + n@.len() <= h@.len(),
            k <= n@.len(),
            forall|t: int| 0 <= t < k ==> h@[i + t] == n@[t],
        decreases n_len - k,
    {
        if h[i + k] != n[k] {
            proof {
                assert(h@.subrange(i as int, i + n@.len() as int)[k as int] == h@[i + k]);
            }
            return false;
        }
        k += 1;
    }
    proof {
        assert(h@.subrange(i as int, i + n@.len() as int) =~= n@);
    }
    true
}

/// Decides whether `n` occurs anywhere in `h`.
pub fn contains_subseq(h: &Vec<u8>, n: &Vec<u8>) -> (r: bool)
    ensures
        r == contains_seq(h@, n@),
{
    if n.len() == 0 {
        proof {
            assert(h@.subrange(0, 0) =~= n@);
            assert(is_match_at(h@, n@, 0));
        }
        return true;
    }
    if n.len() > h.len() {
        proof {
            assert(forall|i: int| is_match_at(h@, n@, i) ==> i + n@.len() <= h@.len());
        }
        return false;
    }
    let last = h.len() - n.len();
    let mut i: usize = 0;
    while i <= last
        invariant
            1 <= n@.len() <= h@.len(),
            h@.len() <= usize::MAX,
            last == h@.len() - n@.len(),
            i <= last + 1,
            forall|j: int| 0 <= j < i ==> !is_match_at(h@, n@, j),
        decreases last + 1 - i,
    {
        if match_at(h, n, i) {
            return true;
        }
        i += 1;
    }
    proof {
        assert(forall|j: int| is_match_at(h@, n@, j) ==> 0 <= j <= last);
    }
    false
}

/// Finds the last occurrence of `n` in `h`.
pub fn rfind_subseq(h: &Vec<u8>, n: &Vec<u8>) -> (r: Option<usize>)
    ensures
        match r {
            Some(i) => is_last_match(h@, n@, i as int),
            None => !contains_seq(h@, n@),
        },
{
    if n.len() == 0 {
        let e = h.len();
        proof {
            assert(h@.subrange(e as int, e as int) =~= n@);
            assert(is_match_at(h@, n@, e as int));
        }
        return Some(e);
    }
    if n.len() > h.len() {
        proof {
            assert(forall|i: int| is_match_at(h@, n@, i) ==> i + n@.len() <= h@.len());
        }
        return None;
    }
    let mut i: usize = h.len() - n.len() + 1;
    proof {
        assert(forall|j: int| j >= i ==> !is_match_at(h@, n@, j));
    }
    while i > 0
        invariant
            n@.len() <= h@.len(),
            i <= h@.len() - n@.len() + 1,
            forall|j: int| j >= i ==> !is_match_at(h@, n@, j),
        decreases i,
    {
        i -= 1;
        if match_at(h, n, i) {
            return Some(i);
        }
    }
    None
}

/// Finds the first occurrence of byte `b` in `h` at or after `start`.
pub fn find_byte_from(h: &Vec<u8>, start: usize, b: u8) -> (r: Option<usize>)
    requires
        start <= h@.len(),
    ensures
        match r {
            Some(i) => start <= i < h@.len() && h@[i as int] == b && forall|j: int|
                start <= j < i ==> h@[j] != b,
            None => forall|j: int| start <= j < h@.len() ==> h@[j] != b,
        },
{
    let h_len = h.len();
    let mut i: usize = start;
    while i < h_len
        invariant
            h_len == h@.len(),
            start <= i <= h@.len(),
            forall|j: int| start <= j < i ==> h@[j] != b,
        decreases h_len - i,
    {
        if h[i] == b {
            return Some(i);
        }
        i += 1;
    }
    None
}

/// Decides whether the byte at index `i` of `h` is whitespace.
fn is_ws_at(h: &Vec<u8>, i: usize) -> (r: bool)
    requires
        i < h@.len(),
    ensures
        r == is_ws(h@[i as int]),
{
    let b: u8 = h[i];
    b == 32 || (9 <= b && b <= 13)
}

/// Decides whether every byte of `h` is whitespace.
pub fn all_whitespace(h: &Vec<u8>) -> (r: bool)
    ensures
        r == all_ws(h@),
{
    let h_len = h.len();
    let mut i: usize = 0;
    while i < h_len
        invariant
            h_len == h@.len(),
            i <= h@.len(),
            forall|j: int| 0 <= j < i ==> is_ws(h@[j]),
        decreases h_len - i,
    {
        if !is_ws_at(h, i) {
            return false;
        }
        i += 1;
    }
    true
}

proof fn lemma_trim_left_skip(s: Seq<u8>, lo: int)
    requires
        0 <= lo <= s.len(),
        forall|k: int| 0 <= k < lo ==> is_ws(s[k]),
        lo == s.len() || !is_ws(s[lo]),
    ensures
        trim_left_spec(s) == s.subrange(lo, s.len() as int),
    decreases lo,
{
    if lo == 0 {
        assert(s.subrange(0, s.len() as int) =~= s);
    } else {
        assert(is_ws(s[0]));
        let t = s.drop_first();
        assert(t =~= s.subrange(1, s.len() as int));
        lemma_trim_left_skip(t, lo - 1);
        assert(t.subrange(lo - 1, t.len() as int) =~= s.subrange(lo, s.len() as int));
    }
}

proof fn lemma_trim_right_skip(s: Seq<u8>, hi: int)
    requires
        0 <= hi <= s.len(),
        forall|k: int| hi <= k < s.len() ==> is_ws(s[k]),
        hi == 0 || !is_ws(s[hi - 1]),
    ensures
        trim_right_spec(s) == s.subrange(0, hi),
    decreases s.len() - hi,
{
    if hi == s.len() {
        assert(s.subrange(0, hi) =~= s);
    } else {
        assert(is_ws(s[s.len() - 1]));
        let t = s.drop_last();
        assert(t =~= s.subrange(0, s.len() - 1));
        lemma_trim_right_skip(t, hi);
        assert(t.subrange(0, hi) =~= s.subrange(0, hi));
    }
}

/// Copies `h[lo..hi]` with surrounding whitespace removed.
pub fn trim_range(h: &Vec<u8>, lo: usize, hi: usize) -> (r: Vec<u8>)
    requires
        lo <= hi <= h@.len(),
    ensures
        r@ == trim_spec(h@.subrange(lo as int, hi as int)),
{
    let ghost s = h@.subrange(lo as int, hi as int);
    let mut a: usize = lo;
    while a < hi && is_ws_at(h, a)
        invariant
            lo <= a <= hi <= h@.len(),
            forall|k: int| lo <= k < a ==> is_ws(h@[k]),
        decreases hi - a,
    {
        a += 1;
    }
    proof {
        assert(forall|k: int| 0 <= k < a - lo ==> s[k] == h@[lo + k] && is_ws(s[k]));
        assert(a - lo == s.len() || !is_ws(s[a - lo]));
        lemma_trim_left_skip(s, a - lo);
    }
    let ghost u = trim_left_spec(s);
    let mut z: usize = hi;
    while z > a && is_ws_at(h, z - 1)
        invariant
            lo <= a <= z <= hi <= h@.len(),
            forall|k: int| z <= k < hi ==> is_ws(h@[k]),
        decreases z,
    {
        z -= 1;
    }
    proof {
        assert(u =~= s.subrange(a - lo, s.len() as int));
        assert(u.len() == hi - a);
        assert(forall|k: int| 0 <= k < u.len() ==> u[k] == h@[a + k]);
        assert(forall|k: int| z - a <= k < u.len() ==> is_ws(u[k]));
        assert(z - a == 0 || !is_ws(u[z - a - 1]));
        lemma_trim_right_skip(u, z - a);
    }
    let mut r: Vec<u8> = Vec::new();
    let mut i: usize = a;
    while i < z
        invariant
            a <= i <= z,
            lo <= a <= z <= hi <= h@.len(),
            r@.len() == i - a,
            forall|k: int| 0 <= k < r@.len() ==> r@[k] == h@[a + k],
        decreases z - i,
    {
        r.push(h[i]);
        i += 1;
    }
    proof {
        assert(r@ =~= u.subrange(0, z - a));
    }
    r
}

} // verus!
