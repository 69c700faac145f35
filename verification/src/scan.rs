//! Substring scanning over text frames.
//!
//! Classification and envelope unwrapping are both defined by where a fixed
//! token first occurs in a frame, so the scanning primitives here carry exact
//! first-occurrence contracts.

use vstd::prelude::*;

verus! {

/// `tok` occurs in `s` starting at position `i`.
pub open spec fn match_at(s: Seq<char>, tok: Seq<char>, i: int) -> bool {
    &&& 0 <= i
    &&& i + tok.len() <= s.len()
    &&& s.subrange(i, i + tok.len() as int) == tok
}

/// `tok` occurs somewhere in `s`.
pub open spec fn contains_tok(s: Seq<char>, tok: Seq<char>) -> bool {
    exists|i: int| match_at(s, tok, i)
}

/// `i` is the first position at which `tok` occurs in `s`.
pub open spec fn first_match_at(s: Seq<char>, tok: Seq<char>, i: int) -> bool {
    &&& match_at(s, tok, i)
    &&& forall|j: int| 0 <= j < i ==> !match_at(s, tok, j)
}

/// The first position at which `tok` occurs in `s` (meaningful only when
/// `contains_tok(s, tok)` holds).
pub open spec fn first_match_index(s: Seq<char>, tok: Seq<char>) -> int {
    choose|i: int| first_match_at(s, tok, i)
}

/// `i` is the last position at which the character `c` occurs in `s`.
pub open spec fn last_index_of(s: Seq<char>, c: char, i: int) -> bool {
    &&& 0 <= i < s.len()
    &&& s[i] == c
    &&& forall|j: int| i < j < s.len() ==> s[j] != c
}

/// The last position at which `c` occurs in `s` (meaningful only when some
/// position holds `c`).
pub open spec fn last_index(s: Seq<char>, c: char) -> int {
    choose|i: int| last_index_of(s, c, i)
}

/// A first occurrence position is unique, so it equals `first_match_index`.
pub proof fn lemma_first_match_unique(s: Seq<char>, tok: Seq<char>, i: int)
    requires
        first_match_at(s, tok, i),
    ensures
        first_match_index(s, tok) == i,
        contains_tok(s, tok),
{
    assert(contains_tok(s, tok)) by {
        assert(match_at(s, tok, i));
    }
    let k = first_match_index(s, tok);
    assert(first_match_at(s, tok, k)) by {
        assert(first_match_at(s, tok, i));
    }
    if k < i {
        assert(!match_at(s, tok, k));
        assert(false);
    }
    if i < k {
        assert(!match_at(s, tok, i));
        assert(false);
    }
}

/// A last occurrence position is unique, so it equals `last_index`.
pub proof fn lemma_last_index_unique(s: Seq<char>, c: char, i: int)
    requires
        last_index_of(s, c, i),
    ensures
        last_index(s, c) == i,
{
    let k = last_index(s, c);
    assert(last_index_of(s, c, k)) by {
        assert(last_index_of(s, c, i));
    }
    if k < i {
        assert(s[i] != c);
        assert(false);
    }
    if i < k {
        assert(s[k] != c);
        assert(false);
    }
}

/// The characters of `s`, in order, as a vector.
pub fn chars_of(s: &str) -> (v: Vec<char>)
    ensures
        v@ == s@,
{
    let n = s.unicode_len();
    let mut v: Vec<char> = Vec::new();
    let mut i: usize = 0;
    while i < n
        invariant
            i <= n,
            n == s@.len(),
            v@ == s@.subrange(0, i as int),
        decreases n - i,
    {
        let c = s.get_char(i);
        v.push(c);
        proof {
            assert(v@ =~= s@.subrange(0, i + 1 as int));
        }
        i = i + 1;
    }
    proof {
        assert(v@ =~= s@);
    }
    v
}

/// Whether `tok` occurs in `s` starting exactly at position `i`.
fn is_match_at(s: &Vec<char>, tok: &Vec<char>, i: usize) -> (r: bool)
    requires
        i + tok@.len() <= s@.len(),
    ensures
        r == match_at(s@, tok@, i as int),
{
    let n = s.len();
    let m = tok.len();
    let mut j: usize = 0;
    while j < m
        invariant
            j <= m,
            n == s@.len(),
            m == tok@.len(),
            i + tok@.len() <= s@.len(),
            forall|k: int| 0 <= k < j ==> s@[i + k] == tok@[k],
        decreases m - j,
    {
        if s[i + j] != tok[j] {
            proof {
                if match_at(s@, tok@, i as int) {
                    assert(s@.subrange(i as int, i + tok@.len() as int)[j as int] == tok@[j as int]);
                    assert(s@[i + j] == tok@[j as int]);
                }
            }
            return false;
        }
        j = j + 1;
    }
    proof {
        assert(s@.subrange(i as int, i + tok@.len() as int) =~= tok@);
    }
    true
}

/// The first position at which `tok` occurs in `s`, if any.
pub fn find_first(s: &Vec<char>, tok: &Vec<char>) -> (r: Option<usize>)
    ensures
        match r {
            Some(i) => first_match_at(s@, tok@, i as int),
            None => !contains_tok(s@, tok@),
        },
{
    let n = s.len();
    let m = tok.len();
    if m == 0 {
        proof {
            assert(match_at(s@, tok@, 0)) by {
                assert(s@.subrange(0, 0) =~= tok@);
            }
        }
        return Some(0);
    }
    if m > n {
        proof {
            assert forall|i: int| !match_at(s@, tok@, i) by {
                if match_at(s@, tok@, i) {
                    assert(i >= 0 && i + tok@.len() <= s@.len());
                }
            }
        }
        return None;
    }
    let mut i: usize = 0;
    while i <= n - m
        invariant
            n == s@.len(),
            m == tok@.len(),
            1 <= m <= n,
            i <= n - m + 1,
            forall|j: int| 0 <= j < i ==> !match_at(s@, tok@, j),
        decreases n - m + 1 - i,
    {
        if is_match_at(s, tok, i) {
            return Some(i);
        }
        i = i + 1;
    }
    proof {
        assert forall|j: int| !match_at(s@, tok@, j) by {
            if match_at(s@, tok@, j) {
                assert(0 <= j && j + tok@.len() <= s@.len());
                assert(j < i);
            }
        }
    }
    None
}

/// The first position at which `tok` occurs in the text `s`, if any.
pub fn find_sub(s: &str, tok: &str) -> (r: Option<usize>)
    ensures
        match r {
            Some(i) => first_match_at(s@, tok@, i as int),
            None => !contains_tok(s@, tok@),
        },
{
    let sv = chars_of(s);
    let tv = chars_of(tok);
    find_first(&sv, &tv)
}

/// Whether `tok` occurs anywhere in the text `s`.
pub fn contains_sub(s: &str, tok: &str) -> (r: bool)
    ensures
        r == contains_tok(s@, tok@),
{
    match find_sub(s, tok) {
        Some(i) => {
            proof {
                assert(match_at(s@, tok@, i as int));
            }
            true
        },
        None => false,
    }
}

/// The last position at which the character `c` occurs in the text `s`.
pub fn rfind_char(s: &str, c: char) -> (r: Option<usize>)
    ensures
        match r {
            Some(i) => last_index_of(s@, c, i as int),
            None => forall|j: int| 0 <= j < s@.len() ==> s@[j] != c,
        },
{
    let v = chars_of(s);
    let n = v.len();
    let mut i: usize = n;
    while i > 0
        invariant
            i <= n,
            n == v@.len(),
            v@ == s@,
            forall|j: int| i <= j < s@.len() ==> s@[j] != c,
        decreases i,
    {
        i = i - 1;
        if v[i] == c {
            return Some(i);
        }
    }
    None
}

} // verus!
