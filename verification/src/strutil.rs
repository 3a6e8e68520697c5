//! Verified string helpers: concatenation, equality, substring search,
//! dash-to-underscore mapping, trailing-whitespace trimming, and Unix-style
//! path joining. Every executable function is specified over the `Seq<char>`
//! view of its arguments.

use vstd::prelude::*;

verus! {

/// The characters of `s` with every dash replaced by an underscore.
pub open spec fn spec_replace_dashes(s: Seq<char>) -> Seq<char> {
    s.map_values(|c: char| if c == '-' { '_' } else { c })
}

/// Replaces every `-` in `s` with `_`, as environment-variable keys require.
pub fn replace_dashes(s: &str) -> (r: String)
    ensures
        r@ == spec_replace_dashes(s@),
{
    let len: usize = s.unicode_len();
    let mut r = String::new();
    let mut i: usize = 0;
    while i < len
        invariant
            i <= len,
            len == s@.len(),
            r@.len() == i,
            forall|j: int| 0 <= j < i ==> r@[j] == spec_replace_dashes(s@)[j],
        decreases len - i,
    {
        let c = s.get_char(i);
        if c == '-' {
            r.append("_");
            proof {
                reveal_strlit("_");
            }
        } else {
            let piece = s.substring_char(i, i + 1);
            r.append(piece);
        }
        i = i + 1;
    }
    proof {
        assert(r@ =~= spec_replace_dashes(s@));
    }
    r
}

/// Character-for-character equality of two string slices.
pub fn eq_str(a: &str, b: &str) -> (r: bool)
    ensures
        r == (a@ == b@),
{
    let alen: usize = a.unicode_len();
    let blen: usize = b.unicode_len();
    if alen != blen {
        return false;
    }
    let mut i: usize = 0;
    while i < alen
        invariant
            i <= alen,
            alen == a@.len(),
            alen == b@.len(),
            forall|j: int| 0 <= j < i ==> a@[j] == b@[j],
        decreases alen - i,
    {
        if a.get_char(i) != b.get_char(i) {
            return false;
        }
        i = i + 1;
    }
    proof {
        assert(a@ =~= b@);
    }
    true
}

/// `needle` occurs in `hay` starting at position `i`.
pub open spec fn spec_contains_at(hay: Seq<char>, needle: Seq<char>, i: int) -> bool {
    &&& 0 <= i
    &&& i + needle.len() <= hay.len()
    &&& hay.subrange(i, i + needle.len() as int) == needle
}

/// `needle` occurs somewhere in `hay`.
pub open spec fn spec_contains(hay: Seq<char>, needle: Seq<char>) -> bool {
    exists|i: int| spec_contains_at(hay, needle, i)
}

fn matches_at(hay: &str, needle: &str, at: usize) -> (r: bool)
    requires
        at + needle@.len() <= hay@.len(),
    ensures
        r == spec_contains_at(hay@, needle@, at as int),
{
    let hlen: usize = hay.unicode_len();
    let nlen: usize = needle.unicode_len();
    let mut j: usize = 0;
    while j < nlen
        invariant
            j <= nlen,
            nlen == needle@.len(),
            hlen == hay@.len(),
            at + nlen <= hlen,
            forall|k: int| 0 <= k < j ==> hay@[at + k] == needle@[k],
        decreases nlen - j,
    {
        if hay.get_char(at + j) != needle.get_char(j) {
            proof {
                assert(hay@.subrange(at as int, at + needle@.len() as int) != needle@) by {
                    if hay@.subrange(at as int, at + needle@.len() as int) == needle@ {
                        assert(hay@.subrange(at as int, at + needle@.len() as int)[j as int]
                            == hay@[at + j]);
                    }
                }
            }
            return false;
        }
        j = j + 1;
    }
    proof {
        assert(hay@.subrange(at as int, at + needle@.len() as int) =~= needle@);
    }
    true
}

/// Substring search; the result says exactly whether `needle` occurs in `hay`.
pub fn contains_substr(hay: &str, needle: &str) -> (r: bool)
    ensures
        r == spec_contains(hay@, needle@),
{
    let hlen: usize = hay.unicode_len();
    let nlen: usize = needle.unicode_len();
    if nlen > hlen {
        proof {
            assert(forall|i: int| !spec_contains_at(hay@, needle@, i));
        }
        return false;
    }
    if nlen == 0 {
        proof {
            assert(hay@.subrange(0, 0) =~= needle@);
            assert(spec_contains_at(hay@, needle@, 0));
        }
        return true;
    }
    let last: usize = hlen - nlen;
    let mut i: usize = 0;
    while i <= last
        invariant
            i <= last + 1,
            last == hlen - nlen,
            1 <= nlen <= hlen,
            hlen == hay@.len(),
            nlen == needle@.len(),
            forall|k: int| 0 <= k < i ==> !spec_contains_at(hay@, needle@, k),
        decreases last + 1 - i,
    {
        if matches_at(hay, needle, i) {
            proof {
                assert(spec_contains_at(hay@, needle@, i as int));
            }
            return true;
        }
        i = i + 1;
    }
    proof {
        assert forall|k: int| !spec_contains_at(hay@, needle@, k) by {
            if 0 <= k < i {
            } else if k > last {
                assert(k + needle@.len() > hay@.len());
            }
        }
    }
    false
}

/// Whitespace that may trail a tool's output line.
pub open spec fn spec_is_ws(c: char) -> bool {
    c == ' ' || c == '\t' || c == '\r' || c == '\n'
}

/// The length of `s` once trailing whitespace is dropped.
pub open spec fn spec_trimmed_len(s: Seq<char>) -> nat
    decreases s.len(),
{
    if s.len() == 0 {
        0
    } else if spec_is_ws(s.last()) {
        spec_trimmed_len(s.drop_last())
    } else {
        s.len()
    }
}

/// `s` without its trailing whitespace.
pub open spec fn spec_trim_end(s: Seq<char>) -> Seq<char> {
    s.subrange(0, spec_trimmed_len(s) as int)
}

proof fn lemma_trimmed_len_bound(s: Seq<char>)
    ensures
        spec_trimmed_len(s) <= s.len(),
    decreases s.len(),
{
    if s.len() > 0 && spec_is_ws(s.last()) {
        lemma_trimmed_len_bound(s.drop_last());
    }
}

fn is_ws_at(s: &str, end: usize) -> (r: bool)
    requires
        1 <= end <= s@.len(),
    ensures
        r == spec_is_ws(s@[end - 1]),
{
    let c = s.get_char(end - 1);
    c == ' ' || c == '\t' || c == '\r' || c == '\n'
}

/// Removes trailing whitespace, the way a tool's output line is cleaned
/// before it is used as a path.
pub fn trim_end_ws(s: &str) -> (r: String)
    ensures
        r@ == spec_trim_end(s@),
{
    let len: usize = s.unicode_len();
    proof {
        assert(s@.subrange(0, len as int) =~= s@);
    }
    let mut end: usize = len;
    while end > 0 && is_ws_at(s, end)
        invariant
            end <= len,
            len == s@.len(),
            spec_trimmed_len(s@) == spec_trimmed_len(s@.subrange(0, end as int)),
        decreases end,
    {
        proof {
            let prefix = s@.subrange(0, end as int);
            assert(prefix.drop_last() =~= s@.subrange(0, end - 1));
            assert(prefix.last() == s@[end - 1]);
        }
        end = end - 1;
    }
    proof {
        let prefix = s@.subrange(0, end as int);
        if end == 0 {
            assert(prefix =~= Seq::<char>::empty());
            assert(spec_trimmed_len(prefix) == 0);
        } else {
            assert(prefix.last() == s@[end - 1]);
            assert(spec_trimmed_len(prefix) == end);
        }
        lemma_trimmed_len_bound(s@);
    }
    let piece = s.substring_char(0, end);
    proof {
        assert(piece@ == spec_trim_end(s@));
    }
    piece.to_owned()
}

/// The concatenation of two strings.
pub fn concat2(a: &str, b: &str) -> (r: String)
    ensures
        r@ == a@ + b@,
{
    let mut r = a.to_owned();
    r.append(b);
    r
}

/// The concatenation of three strings.
pub fn concat3(a: &str, b: &str, c: &str) -> (r: String)
    ensures
        r@ == a@ + b@ + c@,
{
    let mut r = a.to_owned();
    r.append(b);
    r.append(c);
    r
}

/// The concatenation of four strings.
pub fn concat4(a: &str, b: &str, c: &str, d: &str) -> (r: String)
    ensures
        r@ == a@ + b@ + c@ + d@,
{
    let mut r = a.to_owned();
    r.append(b);
    r.append(c);
    r.append(d);
    r
}

/// A path that stands on its own when joined below a base directory.
pub open spec fn spec_is_absolute(p: Seq<char>) -> bool {
    p.len() > 0 && p[0] == '/'
}

/// `base` joined with `p` the way a Unix path join works: an absolute `p`
/// replaces the base entirely.
pub open spec fn spec_join_path(base: Seq<char>, p: Seq<char>) -> Seq<char> {
    if spec_is_absolute(p) {
        p
    } else {
        base + "/"@ + p
    }
}

/// Joins `p` below `base` unless `p` is already absolute.
pub fn join_path(base: &str, p: &str) -> (r: String)
    ensures
        r@ == spec_join_path(base@, p@),
{
    let plen: usize = p.unicode_len();
    if plen > 0 && p.get_char(0) == '/' {
        p.to_owned()
    } else {
        concat3(base, "/", p)
    }
}

} // verus!
