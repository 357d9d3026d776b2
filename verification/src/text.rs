//! Character-level text utilities shared by the overlay logic.
//!
//! The overlay works on the character sequences that the embedded page
//! hands it (input values, the current address). Executable code holds
//! them as `Vec<char>`, whose view is the same `Seq<char>` that the
//! contracts speak of.

use vstd::prelude::*;
use vstd::string::StrSliceExecFns;
use vstd::string::StringExecFns;

verus! {

/// `n` occurs in `h` starting at position `i`.
pub open spec fn match_at(h: Seq<char>, n: Seq<char>, i: int) -> bool {
    &&& 0 <= i
    &&& i + n.len() <= h.len()
    &&& forall|j: int| 0 <= j < n.len() ==> h[i + j] == n[j]
}

/// `n` occurs somewhere in `h` as a contiguous run.
pub open spec fn contains_seq(h: Seq<char>, n: Seq<char>) -> bool {
    exists|i: int| match_at(h, n, i)
}

/// `p` is a prefix of `s`.
pub open spec fn has_prefix(s: Seq<char>, p: Seq<char>) -> bool {
    p.len() <= s.len() && forall|j: int| 0 <= j < p.len() ==> s[j] == p[j]
}

/// Collects the characters of a string slice into a vector.
pub fn str_chars(s: &str) -> (v: Vec<char>)
    ensures
        v@ == s@,
{
    let n = s.unicode_len();
    let mut v: Vec<char> = Vec::new();
    let mut i: usize = 0;
    while i < n
        invariant
            n == s@.len(),
            i <= n,
            v@ == s@.subrange(0, i as int),
        decreases n - i,
    {
        v.push(s.get_char(i));
        i = i + 1;
        assert(v@ =~= s@.subrange(0, i as int));
    }
    assert(v@ =~= s@);
    v
}

/// Builds a `String` out of a vector of characters.
///
/// Relies on `String`'s `FromIterator<char>` implementation: collecting
/// an iterator of characters yields a string holding exactly those
/// characters, in order.
#[verifier::external_body]
pub fn chars_to_string(v: &Vec<char>) -> (r: String)
    ensures
        r@ == v@,
{
    v.iter().collect()
}

/// Whether `c` occurs in `v`.
pub fn contains_char(v: &Vec<char>, c: char) -> (r: bool)
    ensures
        r == v@.contains(c),
{
    let mut i: usize = 0;
    while i < v.len()
        invariant
            i <= v@.len(),
            forall|k: int| 0 <= k < i ==> v@[k] != c,
        decreases v@.len() - i,
    {
        if v[i] == c {
            assert(v@.contains(c));
            return true;
        }
        i = i + 1;
    }
    assert(forall|k: int| 0 <= k < v@.len() ==> v@[k] != c);
    false
}

/// Whether `p` is a prefix of `v`.
pub fn starts_with(v: &Vec<char>, p: &Vec<char>) -> (r: bool)
    ensures
        r == has_prefix(v@, p@),
{
    if p.len() > v.len() {
        return false;
    }
    let mut j: usize = 0;
    while j < p.len()
        invariant
            p@.len() <= v@.len(),
            j <= p@.len(),
            forall|k: int| 0 <= k < j ==> v@[k] == p@[k],
        decreases p@.len() - j,
    {
        if v[j] != p[j] {
            return false;
        }
        j = j + 1;
    }
    true
}

/// Whether `n` occurs in `h` as a contiguous run.
pub fn contains_run(h: &Vec<char>, n: &Vec<char>) -> (r: bool)
    ensures
        r == contains_seq(h@, n@),
{
    if n.len() > h.len() {
        assert(forall|i: int| !match_at(h@, n@, i));
        return false;
    }
    if n.len() == 0 {
        assert(match_at(h@, n@, 0));
        return true;
    }
    let last = h.len() - n.len();
    let mut i: usize = 0;
    while i <= last
        invariant
            1 <= n@.len() <= h@.len(),
            last == h@.len() - n@.len(),
            i <= last + 1,
            h@.len() <= usize::MAX,
            forall|k: int| 0 <= k < i ==> !match_at(h@, n@, k),
        decreases last + 1 - i,
    {
        let mut j: usize = 0;
        let mut hit = true;
        while hit && j < n.len()
            invariant
                1 <= n@.len() <= h@.len(),
                i + n@.len() <= h@.len(),
                h@.len() <= usize::MAX,
                j <= n@.len(),
                hit ==> forall|k: int| 0 <= k < j ==> h@[i + k] == n@[k],
                !hit ==> !match_at(h@, n@, i as int),
            decreases n@.len() - j + (if hit { 1int } else { 0int }),
        {
            if h[i + j] != n[j] {
                hit = false;
                assert(h@[i + j as int] != n@[j as int]);
            } else {
                j = j + 1;
            }
        }
        if hit {
            assert(match_at(h@, n@, i as int));
            return true;
        }
        i = i + 1;
    }
    assert(forall|k: int| 0 <= k <= last ==> !match_at(h@, n@, k));
    assert(forall|k: int| k > last ==> !match_at(h@, n@, k));
    false
}

/// Appends every character of `tail` to `dst`.
pub fn push_all(dst: &mut Vec<char>, tail: &Vec<char>)
    ensures
        final(dst)@ == old(dst)@ + tail@,
{
    let mut i: usize = 0;
    while i < tail.len()
        invariant
            i <= tail@.len(),
            dst@ == old(dst)@ + tail@.subrange(0, i as int),
        decreases tail@.len() - i,
    {
        dst.push(tail[i]);
        i = i + 1;
        assert(dst@ =~= old(dst)@ + tail@.subrange(0, i as int));
    }
    assert(dst@ =~= old(dst)@ + tail@);
}

/// Concatenates three string slices.
pub fn concat3(a: &str, b: &str, c: &str) -> (r: String)
    ensures
        r@ == a@ + b@ + c@,
{
    let mut r = String::from_str(a);
    r.append(b);
    r.append(c);
    r
}

} // verus!
