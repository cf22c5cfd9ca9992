//! Character-level string utilities: equality, first-occurrence searches
//! with their characterizing lemmas, and substring containment.

use vstd::prelude::*;

verus! {

/// True when the characters of `a` equal those of `b`.
pub fn str_eq(a: &str, b: &str) -> (r: bool)
    ensures
        r == (a@ == b@),
{
    let alen = a.unicode_len();
    let blen = b.unicode_len();
    if alen != blen {
        return false;
    }
    let mut i: usize = 0;
    while i < alen
        invariant
            alen == a@.len(),
            blen == b@.len(),
            alen == blen,
            i <= alen,
            forall|j: int| 0 <= j < i ==> a@[j] == b@[j],
        decreases alen - i,
    {
        if a.get_char(i) != b.get_char(i) {
            return false;
        }
        i = i + 1;
    }
    proof {
        assert(a@ =~= b@);
    }
    true
}

/// Index of the first occurrence of `c` in `s`, if any.
pub open spec fn find_char(s: Seq<char>, c: char) -> Option<int>
    decreases s.len(),
{
    if s.len() == 0 {
        None
    } else if s[0] == c {
        Some(0)
    } else {
        match find_char(s.drop_first(), c) {
            Some(i) => Some(i + 1),
            None => None,
        }
    }
}

pub proof fn lemma_find_char_props(s: Seq<char>, c: char)
    ensures
        match find_char(s, c) {
            Some(i) => 0 <= i < s.len() && s[i] == c && forall|j: int| 0 <= j < i ==> s[j] != c,
            None => forall|j: int| 0 <= j < s.len() ==> s[j] != c,
        },
    decreases s.len(),
{
    if s.len() > 0 && s[0] != c {
        lemma_find_char_props(s.drop_first(), c);
        match find_char(s.drop_first(), c) {
            Some(i) => {
                assert(s.drop_first()[i] == s[i + 1]);
                assert forall|j: int| 0 <= j < i + 1 implies s[j] != c by {
                    if j >= 1 {
                        assert(s.drop_first()[j - 1] == s[j]);
                    }
                }
            },
            None => {
                assert forall|j: int| 0 <= j < s.len() implies s[j] != c by {
                    if j >= 1 {
                        assert(s.drop_first()[j - 1] == s[j]);
                    }
                }
            },
        }
    }
}

pub proof fn lemma_find_char_least(s: Seq<char>, c: char, k: int)
    requires
        0 <= k < s.len(),
        s[k] == c,
        forall|j: int| 0 <= j < k ==> s[j] != c,
    ensures
        find_char(s, c) == Some(k),
    decreases k,
{
    if k > 0 {
        assert forall|j: int| 0 <= j < k - 1 implies s.drop_first()[j] != c by {
            assert(s.drop_first()[j] == s[j + 1]);
        }
        assert(s.drop_first()[k - 1] == s[k]);
        lemma_find_char_least(s.drop_first(), c, k - 1);
    }
}

pub proof fn lemma_find_char_none(s: Seq<char>, c: char)
    requires
        forall|j: int| 0 <= j < s.len() ==> s[j] != c,
    ensures
        find_char(s, c) is None,
    decreases s.len(),
{
    if s.len() > 0 {
        assert forall|j: int| 0 <= j < s.drop_first().len() implies s.drop_first()[j] != c by {
            assert(s.drop_first()[j] == s[j + 1]);
        }
        lemma_find_char_none(s.drop_first(), c);
    }
}

/// Index of the first occurrence of `c` in `s`, scanning forward.
pub fn find_char_in(s: &str, c: char) -> (r: Option<usize>)
    ensures
        match r {
            Some(i) => find_char(s@, c) == Some(i as int),
            None => find_char(s@, c) is None,
        },
{
    let len = s.unicode_len();
    let mut i: usize = 0;
    while i < len
        invariant
            len == s@.len(),
            i <= len,
            forall|j: int| 0 <= j < i ==> s@[j] != c,
        decreases len - i,
    {
        if s.get_char(i) == c {
            proof {
                lemma_find_char_least(s@, c, i as int);
            }
            return Some(i);
        }
        i = i + 1;
    }
    proof {
        lemma_find_char_none(s@, c);
    }
    None
}

/// True when positions `i .. i + 3` of `s` hold the scheme separator `://`.
pub open spec fn scheme_sep_at(s: Seq<char>, i: int) -> bool {
    s[i] == ':' && s[i + 1] == '/' && s[i + 2] == '/'
}

/// Index of the first scheme separator `://` in `s`, if any.
pub open spec fn find_scheme_sep(s: Seq<char>) -> Option<int>
    decreases s.len(),
{
    if s.len() < 3 {
        None
    } else if scheme_sep_at(s, 0) {
        Some(0)
    } else {
        match find_scheme_sep(s.drop_first()) {
            Some(i) => Some(i + 1),
            None => None,
        }
    }
}

pub proof fn lemma_find_scheme_sep_props(s: Seq<char>)
    ensures
        match find_scheme_sep(s) {
            Some(i) => 0 <= i && i + 3 <= s.len() && scheme_sep_at(s, i) && forall|j: int|
                0 <= j < i ==> !scheme_sep_at(s, j),
            None => forall|j: int| 0 <= j && j + 3 <= s.len() ==> !scheme_sep_at(s, j),
        },
    decreases s.len(),
{
    if s.len() >= 3 && !scheme_sep_at(s, 0) {
        lemma_find_scheme_sep_props(s.drop_first());
        match find_scheme_sep(s.drop_first()) {
            Some(i) => {
                assert(s.drop_first()[i] == s[i + 1]);
                assert(s.drop_first()[i + 1] == s[i + 2]);
                assert(s.drop_first()[i + 2] == s[i + 3]);
                assert(scheme_sep_at(s, i + 1));
                assert forall|j: int| 0 <= j < i + 1 implies !scheme_sep_at(s, j) by {
                    if j >= 1 {
                        assert(s.drop_first()[j - 1] == s[j]);
                        assert(s.drop_first()[j] == s[j + 1]);
                        assert(s.drop_first()[j + 1] == s[j + 2]);
                        assert(!scheme_sep_at(s.drop_first(), j - 1));
                    }
                }
            },
            None => {
                assert forall|j: int| 0 <= j && j + 3 <= s.len() implies !scheme_sep_at(s, j) by {
                    if j >= 1 {
                        assert(s.drop_first()[j - 1] == s[j]);
                        assert(s.drop_first()[j] == s[j + 1]);
                        assert(s.drop_first()[j + 1] == s[j + 2]);
                        assert(!scheme_sep_at(s.drop_first(), j - 1));
                    }
                }
            },
        }
    }
}

pub proof fn lemma_find_scheme_sep_least(s: Seq<char>, k: int)
    requires
        0 <= k,
        k + 3 <= s.len(),
        scheme_sep_at(s, k),
        forall|j: int| 0 <= j < k ==> !scheme_sep_at(s, j),
    ensures
        find_scheme_sep(s) == Some(k),
    decreases k,
{
    if k > 0 {
        assert forall|j: int| 0 <= j < k - 1 implies !scheme_sep_at(s.drop_first(), j) by {
            assert(s.drop_first()[j] == s[j + 1]);
            assert(s.drop_first()[j + 1] == s[j + 2]);
            assert(s.drop_first()[j + 2] == s[j + 3]);
            assert(!scheme_sep_at(s, j + 1));
        }
        assert(s.drop_first()[k - 1] == s[k]);
        assert(s.drop_first()[k] == s[k + 1]);
        assert(s.drop_first()[k + 1] == s[k + 2]);
        lemma_find_scheme_sep_least(s.drop_first(), k - 1);
    }
}

/// Index of the first scheme separator `://` in `s`, scanning forward.
pub fn find_scheme_sep_in(s: &str) -> (r: Option<usize>)
    ensures
        match r {
            Some(i) => find_scheme_sep(s@) == Some(i as int),
            None => find_scheme_sep(s@) is None,
        },
{
    let len = s.unicode_len();
    if len < 3 {
        proof {
            lemma_find_scheme_sep_props(s@);
        }
        return None;
    }
    let mut i: usize = 0;
    while i <= len - 3
        invariant
            len == s@.len(),
            3 <= len,
            i <= len - 2,
            forall|j: int| 0 <= j < i ==> !scheme_sep_at(s@, j),
        decreases len - i,
    {
        if s.get_char(i) == ':' && s.get_char(i + 1) == '/' && s.get_char(i + 2) == '/' {
            proof {
                lemma_find_scheme_sep_least(s@, i as int);
            }
            return Some(i);
        }
        i = i + 1;
    }
    proof {
        lemma_find_scheme_sep_props(s@);
    }
    None
}

/// True when `needle` occurs as a contiguous part of `s`.
pub open spec fn contains_seq(s: Seq<char>, needle: Seq<char>) -> bool {
    exists|i: int|
        0 <= i && i + needle.len() <= s.len() && #[trigger] s.subrange(i, i + needle.len() as int)
            == needle
}

/// True when the characters of `needle` occur contiguously in `haystack`.
pub fn str_contains(haystack: &str, needle: &str) -> (r: bool)
    ensures
        r == contains_seq(haystack@, needle@),
{
    let hlen = haystack.unicode_len();
    let nlen = needle.unicode_len();
    if nlen == 0 {
        proof {
            assert(haystack@.subrange(0, 0 + needle@.len() as int) =~= needle@);
        }
        return true;
    }
    if nlen > hlen {
        proof {
            if contains_seq(haystack@, needle@) {
                let i = choose|i: int|
                    0 <= i && i + needle@.len() <= haystack@.len()
                        && #[trigger] haystack@.subrange(i, i + needle@.len() as int) == needle@;
                assert(false);
            }
        }
        return false;
    }
    let mut i: usize = 0;
    while i <= hlen - nlen
        invariant
            hlen == haystack@.len(),
            nlen == needle@.len(),
            1 <= nlen <= hlen,
            i <= hlen - nlen + 1,
            forall|k: int|
                0 <= k < i ==> #[trigger] haystack@.subrange(k, k + needle@.len() as int)
                    != needle@,
        decreases hlen - i,
    {
        let mut j: usize = 0;
        let mut matched = true;
        while matched && j < nlen
            invariant
                hlen == haystack@.len(),
                nlen == needle@.len(),
                i + nlen <= hlen,
                j <= nlen,
                matched ==> forall|t: int| 0 <= t < j ==> haystack@[i + t] == needle@[t],
                !matched ==> haystack@.subrange(i as int, i + needle@.len() as int) != needle@,
            decreases nlen - j + (if matched { 1int } else { 0int }),
        {
            if haystack.get_char(i + j) != needle.get_char(j) {
                proof {
                    assert(haystack@.subrange(i as int, i + needle@.len() as int)[j as int]
                        != needle@[j as int]);
                }
                matched = false;
            } else {
                j = j + 1;
            }
        }
        if matched {
            proof {
                assert(haystack@.subrange(i as int, i + needle@.len() as int) =~= needle@);
            }
            return true;
        }
        i = i + 1;
    }
    proof {
        assert(forall|k: int|
            0 <= k && k + needle@.len() <= haystack@.len() ==> #[trigger] haystack@.subrange(
                k,
                k + needle@.len() as int,
            ) != needle@);
    }
    false
}

} // verus!
