//! Verified text and path-string helpers: joining path components,
//! prefix tests, locating characters and splitting a path on its
//! separator. Paths are modelled as strings; a component never holds the
//! separator character.

use vstd::prelude::*;
use crate::platform::Os;

verus! {

/// `base`, the family's separator, then `name`.
pub open spec fn spec_join(base: Seq<char>, os: Os, name: Seq<char>) -> Seq<char> {
    base + seq![os.spec_path_separator()] + name
}

/// Appends the family's path separator and `name` to `base`.
pub fn join_path(base: &String, os: Os, name: &str) -> (r: String)
    ensures
        r@ == spec_join(base@, os, name@),
{
    let mut r = base.clone();
    if os.path_separator() == '\\' {
        r.append("\\");
        proof {
            reveal_strlit("\\");
            assert("\\"@ =~= seq!['\\']);
        }
    } else {
        r.append("/");
        proof {
            reveal_strlit("/");
            assert("/"@ =~= seq!['/']);
        }
    }
    r.append(name);
    r
}

/// Whether `s` begins with `prefix`, character for character.
pub fn str_starts_with(s: &str, prefix: &str) -> (r: bool)
    ensures
        r == prefix@.is_prefix_of(s@),
{
    let n = prefix.unicode_len();
    if n > s.unicode_len() {
        return false;
    }
    for i in 0..n
        invariant
            n == prefix@.len(),
            n <= s@.len(),
            forall|j: int| 0 <= j < i ==> s@[j] == prefix@[j],
    {
        if s.get_char(i) != prefix.get_char(i) {
            assert(!prefix@.is_prefix_of(s@)) by {
                assert(s@.subrange(0, n as int)[i as int] == s@[i as int]);
            }
            return false;
        }
    }
    proof {
        assert(prefix@ =~= s@.subrange(0, n as int));
    }
    true
}

/// The first index at which `c` occurs in `s`, if any.
pub fn find_char(s: &str, c: char) -> (r: Option<usize>)
    ensures
        match r {
            Some(i) => i < s@.len() && s@[i as int] == c && forall|j: int|
                0 <= j < i ==> s@[j] != c,
            None => forall|j: int| 0 <= j < s@.len() ==> s@[j] != c,
        },
{
    let n = s.unicode_len();
    for i in 0..n
        invariant
            n == s@.len(),
            forall|j: int| 0 <= j < i ==> s@[j] != c,
    {
        if s.get_char(i) == c {
            return Some(i);
        }
    }
    None
}

/// The last index at which `c` occurs in `s`, if any.
pub fn rfind_char(s: &str, c: char) -> (r: Option<usize>)
    ensures
        match r {
            Some(i) => i < s@.len() && s@[i as int] == c && forall|j: int|
                i < j < s@.len() ==> s@[j] != c,
            None => forall|j: int| 0 <= j < s@.len() ==> s@[j] != c,
        },
{
    let n = s.unicode_len();
    let mut k: usize = n;
    while k > 0
        invariant
            n == s@.len(),
            k <= n,
            forall|j: int| k <= j < s@.len() ==> s@[j] != c,
        decreases k,
    {
        k = k - 1;
        if s.get_char(k) == c {
            return Some(k);
        }
    }
    None
}

/// The first index at which `c` occurs in `s`, if any.
pub open spec fn spec_find(s: Seq<char>, c: char) -> Option<int>
    decreases s.len(),
{
    if s.len() == 0 {
        None
    } else if s[0] == c {
        Some(0int)
    } else {
        match spec_find(s.skip(1), c) {
            Some(i) => Some(i + 1),
            None => None,
        }
    }
}

/// The last index at which `c` occurs in `s`, if any.
pub open spec fn spec_rfind(s: Seq<char>, c: char) -> Option<int>
    decreases s.len(),
{
    if s.len() == 0 {
        None
    } else if s.last() == c {
        Some(s.len() - 1)
    } else {
        spec_rfind(s.drop_last(), c)
    }
}

pub proof fn lemma_spec_find_props(s: Seq<char>, c: char)
    ensures
        match spec_find(s, c) {
            Some(i) => 0 <= i < s.len() && s[i] == c && forall|j: int| 0 <= j < i ==> s[j] != c,
            None => forall|j: int| 0 <= j < s.len() ==> s[j] != c,
        },
    decreases s.len(),
{
    if s.len() > 0 && s[0] != c {
        lemma_spec_find_props(s.skip(1), c);
        assert(forall|j: int| 1 <= j < s.len() ==> s[j] == s.skip(1)[j - 1]);
    }
}

pub proof fn lemma_spec_rfind_props(s: Seq<char>, c: char)
    ensures
        match spec_rfind(s, c) {
            Some(i) => 0 <= i < s.len() && s[i] == c && forall|j: int| i < j < s.len() ==> s[j] != c,
            None => forall|j: int| 0 <= j < s.len() ==> s[j] != c,
        },
    decreases s.len(),
{
    if s.len() > 0 && s.last() != c {
        lemma_spec_rfind_props(s.drop_last(), c);
        assert(forall|j: int| 0 <= j < s.len() - 1 ==> s[j] == s.drop_last()[j]);
    }
}

/// The components of `s` split on `sep`: splitting the empty string gives
/// one empty component, and every separator opens a new component.
pub open spec fn spec_split(s: Seq<char>, sep: char) -> Seq<Seq<char>>
    decreases s.len(),
{
    if s.len() == 0 {
        seq![Seq::<char>::empty()]
    } else {
        let prev = spec_split(s.drop_last(), sep);
        if s.last() == sep {
            prev.push(Seq::<char>::empty())
        } else {
            prev.update(prev.len() - 1, prev.last().push(s.last()))
        }
    }
}

pub proof fn lemma_spec_split_len(s: Seq<char>, sep: char)
    ensures
        spec_split(s, sep).len() >= 1,
    decreases s.len(),
{
    if s.len() > 0 {
        lemma_spec_split_len(s.drop_last(), sep);
    }
}

/// The views of a sequence of strings.
pub open spec fn views_of(v: Seq<String>) -> Seq<Seq<char>> {
    v.map_values(|t: String| t@)
}

/// Splits `s` at every occurrence of `sep`.
pub fn split_on_char(s: &String, sep: char) -> (r: Vec<String>)
    ensures
        views_of(r@) == spec_split(s@, sep),
{
    let n = s.as_str().unicode_len();
    let mut parts: Vec<String> = Vec::new();
    let mut start: usize = 0;
    proof {
        assert(views_of(parts@).push(s@.subrange(0, 0))
            =~~= spec_split(s@.take(0), sep));
    }
    for i in 0..n
        invariant
            n == s@.len(),
            start <= i,
            views_of(parts@).push(s@.subrange(start as int, i as int))
                == spec_split(s@.take(i as int), sep),
    {
        proof {
            assert(s@.take(i + 1).drop_last() =~= s@.take(i as int));
            assert(s@.take(i + 1).last() == s@[i as int]);
            lemma_spec_split_len(s@.take(i as int), sep);
        }
        let ghost m0 = views_of(parts@);
        let ghost prev = spec_split(s@.take(i as int), sep);
        if s.as_str().get_char(i) == sep {
            let piece = String::from_str(s.as_str().substring_char(start, i));
            parts.push(piece);
            start = i + 1;
            proof {
                assert(spec_split(s@.take(i + 1), sep)
                    == prev.push(Seq::<char>::empty()));
                assert(views_of(parts@) =~~= m0.push(piece@));
                assert(views_of(parts@).push(s@.subrange(i + 1, i + 1))
                    =~~= spec_split(s@.take(i + 1), sep));
            }
        } else {
            proof {
                assert(spec_split(s@.take(i + 1), sep)
                    == prev.update(prev.len() - 1, prev.last().push(s@[i as int])));
                assert(prev.last() == s@.subrange(start as int, i as int));
                assert(m0.push(s@.subrange(start as int, i + 1))
                    =~~= prev.update(prev.len() - 1, prev.last().push(s@[i as int])));
            }
        }
    }
    let tail = String::from_str(s.as_str().substring_char(start, n));
    let ghost m1 = views_of(parts@);
    parts.push(tail);
    proof {
        assert(s@.take(n as int) =~= s@);
        assert(views_of(parts@) =~~= m1.push(tail@));
        assert(views_of(parts@) =~~= spec_split(s@, sep));
    }
    parts
}

} // verus!
