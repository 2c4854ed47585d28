//! Small verified string helpers shared by the rest of the crate:
//! equality and substring tests on `&str`, building strings character by
//! character, and joining a directory with a file name.

use vstd::prelude::*;
use vstd::string::*;

verus! {

/// Relies on `String::push`: appends the given character at the end of the
/// string (vstd specifies many `String` methods, but not `push`).
#[verifier::external_body]
pub fn push_char(s: &mut String, c: char)
    ensures
        final(s)@ == old(s)@.push(c),
{
    s.push(c)
}

/// Character-for-character equality of two string slices.
pub fn str_eq(a: &str, b: &str) -> (r: bool)
    ensures
        r == (a@ == b@),
{
    let n = a.unicode_len();
    let m = b.unicode_len();
    if n != m {
        return false;
    }
    let mut i: usize = 0;
    while i < n
        invariant
            i <= n,
            n == a@.len(),
            n == b@.len(),
            forall|k: int| 0 <= k < i ==> a@[k] == b@[k],
        decreases n - i,
    {
        let ca = a.get_char(i);
        let cb = b.get_char(i);
        if ca != cb {
            return false;
        }
        i += 1;
    }
    proof {
        assert(a@ =~= b@);
    }
    true
}

/// `needle` occurs contiguously somewhere in `hay`.
pub open spec fn contains_seq(hay: Seq<char>, needle: Seq<char>) -> bool {
    exists|i: int|
        0 <= i && i + needle.len() <= hay.len() && #[trigger] hay.subrange(
            i,
            i + needle.len() as int,
        ) == needle
}

/// Substring search: does `hay` contain `needle`?
pub fn contains_sub(hay: &str, needle: &str) -> (r: bool)
    ensures
        r == contains_seq(hay@, needle@),
{
    let n = hay.unicode_len();
    let m = needle.unicode_len();
    if m > n {
        return false;
    }
    let mut i: usize = 0;
    while i <= n - m
        invariant
            m <= n,
            i <= n - m + 1,
            n == hay@.len(),
            m == needle@.len(),
            forall|k: int| 0 <= k < i ==> #[trigger] hay@.subrange(k, k + m as int) != needle@,
        decreases n - m + 1 - i,
    {
        let mut j: usize = 0;
        let mut mismatch = false;
        while j < m && !mismatch
            invariant
                j <= m,
                i + m <= n,
                n == hay@.len(),
                m == needle@.len(),
                !mismatch ==> forall|k: int| 0 <= k < j ==> hay@[i + k] == needle@[k],
                mismatch ==> hay@.subrange(i as int, i + m as int) != needle@,
            decreases m - j + (if mismatch { 0int } else { 1int }),
        {
            let ch = hay.get_char(i + j);
            let cn = needle.get_char(j);
            if ch != cn {
                proof {
                    assert(hay@.subrange(i as int, i + m as int)[j as int] == hay@[i + j]);
                }
                mismatch = true;
            } else {
                j += 1;
            }
        }
        if !mismatch {
            proof {
                assert forall|idx: int| 0 <= idx < m implies hay@.subrange(i as int, i + m as int)[idx]
                    == needle@[idx] by {
                    assert(hay@[i + idx] == needle@[idx]);
                }
                assert(hay@.subrange(i as int, i + m as int) =~= needle@);
            }
            return true;
        }
        proof {
            if m == 0 {
                assert(hay@.subrange(i as int, i + m as int) =~= needle@);
            }
        }
        i += 1;
    }
    proof {
        assert forall|k: int| 0 <= k && k + needle@.len() <= hay@.len() implies #[trigger] hay@.subrange(
            k,
            k + needle@.len() as int,
        ) != needle@ by {
            assert(k < i);
        }
    }
    false
}

/// What joining a directory and a file name yields: the two pieces separated
/// by exactly one `/`, or the name alone when the directory is empty.
pub open spec fn spec_join_path(dir: Seq<char>, name: Seq<char>) -> Seq<char> {
    if dir.len() == 0 {
        name
    } else if dir[dir.len() - 1] == '/' {
        dir + name
    } else {
        dir + "/"@ + name
    }
}

/// Joins a directory and a file name with a single `/` separator.
pub fn join_path(dir: &str, name: &str) -> (r: String)
    ensures
        r@ == spec_join_path(dir@, name@),
{
    let n = dir.unicode_len();
    if n == 0 {
        return name.to_owned();
    }
    let last = dir.get_char(n - 1);
    if last == '/' {
        dir.to_owned().concat(name)
    } else {
        dir.to_owned().concat("/").concat(name)
    }
}

} // verus!
