//! Literal substring matching over strings, used by the filter.
//!
//! A path matches a query when the query occurs in the path as a contiguous
//! run of characters (case-sensitive, no patterns). The search is written and
//! verified here rather than taken on trust.

use vstd::prelude::*;

verus! {

use vstd::string::StrSliceExecFns;

/// The characters of `needle` occur in `hay` starting at position `i`.
pub open spec fn is_match_at(hay: Seq<char>, needle: Seq<char>, i: int) -> bool {
    &&& 0 <= i
    &&& i + needle.len() <= hay.len()
    &&& hay.subrange(i, i + needle.len()) == needle
}

/// `needle` occurs somewhere in `hay` as a contiguous substring.
pub open spec fn contains_substring(hay: Seq<char>, needle: Seq<char>) -> bool {
    exists|i: int| is_match_at(hay, needle, i)
}

/// The empty string occurs in every string (at position zero).
pub proof fn lemma_empty_needle_matches(hay: Seq<char>, needle: Seq<char>)
    requires
        needle.len() == 0,
    ensures
        contains_substring(hay, needle),
{
    assert(hay.subrange(0, 0) =~= needle);
    assert(is_match_at(hay, needle, 0));
}

/// Compares `needle` against the characters of `hay` starting at `start`.
fn match_at(hay: &str, needle: &str, start: usize, needle_len: usize) -> (b: bool)
    requires
        needle_len == needle@.len(),
        start + needle_len <= hay@.len(),
        hay@.len() <= usize::MAX,
    ensures
        b == is_match_at(hay@, needle@, start as int),
{
    let mut j: usize = 0;
    while j < needle_len
        invariant
            needle_len == needle@.len(),
            start + needle_len <= hay@.len(),
            hay@.len() <= usize::MAX,
            0 <= j <= needle_len,
            forall|t: int| 0 <= t < j ==> hay@[start + t] == needle@[t],
        decreases needle_len - j,
    {
        if hay.get_char(start + j) != needle.get_char(j) {
            proof {
                let s = start as int;
                if hay@.subrange(s, s + needle@.len()) == needle@ {
                    assert(hay@.subrange(s, s + needle@.len())[j as int] == hay@[s + j]);
                    assert(false);
                }
            }
            return false;
        }
        j += 1;
    }
    proof {
        let s = start as int;
        assert(hay@.subrange(s, s + needle@.len()) =~= needle@);
    }
    true
}

/// Literal substring search: reports whether `needle` occurs in `hay`.
pub fn str_contains(hay: &str, needle: &str) -> (b: bool)
    ensures
        b == contains_substring(hay@, needle@),
{
    let hay_len = hay.unicode_len();
    let needle_len = needle.unicode_len();
    if needle_len > hay_len {
        proof {
            assert(forall|i: int| !is_match_at(hay@, needle@, i));
        }
        return false;
    }
    if needle_len == 0 {
        proof {
            lemma_empty_needle_matches(hay@, needle@);
        }
        return true;
    }
    let last_start = hay_len - needle_len;
    let mut start: usize = 0;
    loop
        invariant
            hay_len == hay@.len(),
            needle_len == needle@.len(),
            1 <= needle_len <= hay_len,
            last_start == hay_len - needle_len,
            0 <= start <= last_start + 1,
            forall|j: int| 0 <= j < start ==> !is_match_at(hay@, needle@, j),
        decreases last_start + 1 - start,
    {
        if start > last_start {
            proof {
                assert(forall|i: int| is_match_at(hay@, needle@, i) ==> 0 <= i <= last_start);
            }
            return false;
        }
        if match_at(hay, needle, start, needle_len) {
            return true;
        }
        start += 1;
    }
}

} // verus!
