//! Turning an arbitrary video title into a safe file name: filesystem-reserved
//! and non-ASCII characters become underscores, the result is capped at 50
//! characters, and a title that sanitizes to nothing but whitespace falls back
//! to the literal name `video`.  Also: trimming leading and trailing
//! whitespace, as the title read back from the downloader is trimmed first.

use vstd::prelude::*;
use vstd::string::*;
use crate::strutil::push_char;

verus! {

/// The characters that file systems commonly reserve.
pub open spec fn is_forbidden_char(c: char) -> bool {
    c == '/' || c == '\\' || c == ':' || c == '*' || c == '?' || c == '"' || c == '<' || c == '>'
        || c == '|'
}

pub open spec fn is_ascii_char(c: char) -> bool {
    (c as u32) < 128
}

/// ASCII whitespace as `str::trim` sees it.
pub open spec fn is_space_char(c: char) -> bool {
    c == ' ' || c == '\t' || c == '\n' || c == '\r' || c == '\u{000B}' || c == '\u{000C}'
}

/// The whitespace set of `char::is_whitespace` (the Unicode `White_Space`
/// property), which `str::trim` strips from both ends.
pub open spec fn is_unicode_space_char(c: char) -> bool {
    is_space_char(c) || c == '\u{0085}' || c == '\u{00A0}' || c == '\u{1680}' || (
    '\u{2000}' <= c <= '\u{200A}') || c == '\u{2028}' || c == '\u{2029}' || c == '\u{202F}'
        || c == '\u{205F}' || c == '\u{3000}'
}

/// How a single title character is rewritten: reserved and non-ASCII
/// characters become `_`, everything else is kept.
pub open spec fn sanitize_char(c: char) -> char {
    if is_forbidden_char(c) {
        '_'
    } else if !is_ascii_char(c) {
        '_'
    } else {
        c
    }
}

pub open spec fn sanitized_chars(s: Seq<char>) -> Seq<char> {
    Seq::new(s.len(), |i: int| sanitize_char(s[i]))
}

/// The first 50 characters, or the whole sequence if it is shorter.
pub open spec fn truncate50(s: Seq<char>) -> Seq<char> {
    if s.len() <= 50 {
        s
    } else {
        s.take(50)
    }
}

pub open spec fn all_space(s: Seq<char>) -> bool {
    forall|i: int| 0 <= i < s.len() ==> is_space_char(#[trigger] s[i])
}

/// The sanitized form of a title: per-character rewriting, truncation to 50
/// characters, and the fallback name when nothing printable remains.
pub open spec fn sanitized_title(s: Seq<char>) -> Seq<char> {
    let t = truncate50(sanitized_chars(s));
    if all_space(t) {
        "video"@
    } else {
        t
    }
}

fn is_space_exec(c: char) -> (r: bool)
    ensures
        r == is_space_char(c),
{
    c == ' ' || c == '\t' || c == '\n' || c == '\r' || c == '\u{000B}' || c == '\u{000C}'
}

fn is_unicode_space_exec(c: char) -> (r: bool)
    ensures
        r == is_unicode_space_char(c),
{
    is_space_exec(c) || c == '\u{0085}' || c == '\u{00A0}' || c == '\u{1680}' || ('\u{2000}' <= c
        && c <= '\u{200A}') || c == '\u{2028}' || c == '\u{2029}' || c == '\u{202F}'
        || c == '\u{205F}' || c == '\u{3000}'
}

fn sanitize_char_exec(c: char) -> (r: char)
    ensures
        r == sanitize_char(c),
{
    if c == '/' || c == '\\' || c == ':' || c == '*' || c == '?' || c == '"' || c == '<' || c == '>'
        || c == '|' {
        '_'
    } else if (c as u32) >= 128 {
        '_'
    } else {
        c
    }
}

/// Rewrites a title into a file-name-safe form: reserved and non-ASCII
/// characters become `_`, at most 50 characters are kept, and a result that
/// is empty or whitespace-only is replaced by `video`.
pub fn sanitize_filename(filename: &str) -> (r: String)
    ensures
        r@ == sanitized_title(filename@),
{
    let n = filename.unicode_len();
    let mut out = String::new();
    let mut i: usize = 0;
    while i < n && i < 50
        invariant
            i <= n,
            i <= 50,
            n == filename@.len(),
            out@ =~= sanitized_chars(filename@).take(i as int),
        decreases n - i,
    {
        let c = filename.get_char(i);
        let sc = sanitize_char_exec(c);
        push_char(&mut out, sc);
        i += 1;
        proof {
            assert(out@ =~= sanitized_chars(filename@).take(i as int));
        }
    }
    proof {
        assert(out@ =~= truncate50(sanitized_chars(filename@)));
    }
    let m = out.as_str().unicode_len();
    let mut j: usize = 0;
    while j < m
        invariant
            j <= m,
            m == out@.len(),
            out@ =~= truncate50(sanitized_chars(filename@)),
            forall|k: int| 0 <= k < j ==> is_space_char(#[trigger] out@[k]),
        decreases m - j,
    {
        let c = out.as_str().get_char(j);
        if !is_space_exec(c) {
            return out;
        }
        j += 1;
    }
    proof {
        assert(all_space(out@));
    }
    String::from_str("video")
}

/// Law: whatever the input title, its sanitized form holds no
/// filesystem-reserved character, holds only ASCII characters, is at most 50
/// characters long, is never empty, and is exactly `video` whenever
/// sanitization would otherwise leave only whitespace.
pub proof fn lemma_sanitized_title_safe(s: Seq<char>)
    ensures
        sanitized_title(s).len() <= 50,
        sanitized_title(s).len() > 0,
        forall|i: int|
            0 <= i < sanitized_title(s).len() ==> !is_forbidden_char(
                #[trigger] sanitized_title(s)[i],
            ),
        forall|i: int|
            0 <= i < sanitized_title(s).len() ==> is_ascii_char(#[trigger] sanitized_title(s)[i]),
        all_space(truncate50(sanitized_chars(s))) ==> sanitized_title(s) == "video"@,
{
    reveal_strlit("video");
    let t = truncate50(sanitized_chars(s));
    if all_space(t) {
        assert(sanitized_title(s) == "video"@);
        assert(sanitized_title(s).len() == 5);
        assert forall|i: int| 0 <= i < sanitized_title(s).len() implies !is_forbidden_char(
            #[trigger] sanitized_title(s)[i],
        ) && is_ascii_char(sanitized_title(s)[i]) by {
            assert(sanitized_title(s)[0] == 'v');
            assert(sanitized_title(s)[1] == 'i');
            assert(sanitized_title(s)[2] == 'd');
            assert(sanitized_title(s)[3] == 'e');
            assert(sanitized_title(s)[4] == 'o');
        }
    } else {
        assert forall|i: int| 0 <= i < sanitized_title(s).len() implies !is_forbidden_char(
            #[trigger] sanitized_title(s)[i],
        ) && is_ascii_char(sanitized_title(s)[i]) by {
            assert(sanitized_title(s)[i] == sanitize_char(s[i]));
        }
    }
}

/// The input with leading whitespace removed.
pub open spec fn trim_start_spec(s: Seq<char>) -> Seq<char>
    decreases s.len(),
{
    if s.len() == 0 {
        s
    } else if is_unicode_space_char(s[0]) {
        trim_start_spec(s.drop_first())
    } else {
        s
    }
}

/// The input with trailing whitespace removed.
pub open spec fn trim_end_spec(s: Seq<char>) -> Seq<char>
    decreases s.len(),
{
    if s.len() == 0 {
        s
    } else if is_unicode_space_char(s[s.len() - 1]) {
        trim_end_spec(s.drop_last())
    } else {
        s
    }
}

/// What `str::trim` returns: the input without leading and trailing
/// whitespace.
pub open spec fn trimmed(s: Seq<char>) -> Seq<char> {
    trim_end_spec(trim_start_spec(s))
}

proof fn lemma_trim_start_skip(s: Seq<char>, i: int)
    requires
        0 <= i <= s.len(),
        forall|k: int| 0 <= k < i ==> is_unicode_space_char(#[trigger] s[k]),
        i < s.len() ==> !is_unicode_space_char(s[i]),
    ensures
        trim_start_spec(s) == s.skip(i),
    decreases i,
{
    if i == 0 {
        assert(s.skip(0) =~= s);
        if s.len() > 0 {
            assert(!is_unicode_space_char(s[0]));
        }
    } else {
        assert(is_unicode_space_char(s[0]));
        lemma_trim_start_skip(s.drop_first(), i - 1);
        assert(s.drop_first().skip(i - 1) =~= s.skip(i));
    }
}

proof fn lemma_trim_end_take(s: Seq<char>, j: int)
    requires
        0 <= j <= s.len(),
        forall|k: int| j <= k < s.len() ==> is_unicode_space_char(#[trigger] s[k]),
        j > 0 ==> !is_unicode_space_char(s[j - 1]),
    ensures
        trim_end_spec(s) == s.take(j),
    decreases s.len() - j,
{
    if j == s.len() {
        assert(s.take(j) =~= s);
        if s.len() > 0 {
            assert(!is_unicode_space_char(s[s.len() - 1]));
        }
    } else {
        assert(is_unicode_space_char(s[s.len() - 1]));
        lemma_trim_end_take(s.drop_last(), j);
        assert(s.drop_last().take(j) =~= s.take(j));
    }
}

/// Removes leading and trailing whitespace, as `str::trim` does.
pub fn trim_str(s: &str) -> (r: String)
    ensures
        r@ == trimmed(s@),
{
    let n = s.unicode_len();
    let mut i: usize = 0;
    while i < n && is_unicode_space_exec(s.get_char(i))
        invariant
            i <= n,
            n == s@.len(),
            forall|k: int| 0 <= k < i ==> is_unicode_space_char(#[trigger] s@[k]),
        decreases n - i,
    {
        i += 1;
    }
    proof {
        lemma_trim_start_skip(s@, i as int);
    }
    let mut j: usize = n;
    while j > i && is_unicode_space_exec(s.get_char(j - 1))
        invariant
            i <= j <= n,
            n == s@.len(),
            forall|k: int| 0 <= k < i ==> is_unicode_space_char(#[trigger] s@[k]),
            forall|k: int| j <= k < n ==> is_unicode_space_char(#[trigger] s@[k]),
        decreases j,
    {
        j -= 1;
    }
    let sub = s.substring_char(i, j);
    proof {
        let st = trim_start_spec(s@);
        assert(st == s@.skip(i as int));
        assert forall|k: int| j - i <= k < st.len() implies is_unicode_space_char(
            #[trigger] st[k],
        ) by {
            assert(st[k] == s@[k + i]);
        }
        if j > i {
            assert(st[j - i - 1] == s@[j - 1]);
        }
        lemma_trim_end_take(st, j - i);
        assert(st.take(j - i) =~= s@.subrange(i as int, j as int));
    }
    sub.to_owned()
}

} // verus!
