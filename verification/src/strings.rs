//! Character-sequence matching used by the companion identity predicate:
//! substring containment and the leading token of a command line.
use vstd::prelude::*;
use vstd::string::StrSliceExecFns;

verus! {

/// The needle `n` occurs in `h` starting at position `i`.
pub open spec fn substring_at(h: Seq<char>, n: Seq<char>, i: int) -> bool {
    0 <= i && i + n.len() <= h.len() && h.subrange(i, i + n.len()) == n
}

/// The needle `n` occurs somewhere in `h`.
pub open spec fn has_substring(h: Seq<char>, n: Seq<char>) -> bool {
    exists|i: int| substring_at(h, n, i)
}

/// `t` is the leading token of `s`: the prefix up to the first space.
pub open spec fn is_leading_token(s: Seq<char>, t: Seq<char>) -> bool {
    &&& t.len() <= s.len()
    &&& t == s.subrange(0, t.len() as int)
    &&& forall|k: int| 0 <= k < t.len() ==> s[k] != ' '
    &&& (t.len() == s.len() || s[t.len() as int] == ' ')
}

/// Does `n` occur in `h` starting exactly at `i`?
fn matches_at(h: &str, n: &str, i: usize) -> (r: bool)
    requires
        i + n@.len() <= h@.len(),
    ensures
        r == substring_at(h@, n@, i as int),
{
    let h_len = h.unicode_len();
    let n_len = n.unicode_len();
    let mut j: usize = 0;
    while j < n_len
        invariant
            h_len == h@.len(),
            n_len == n@.len(),
            i + n@.len() <= h@.len(),
            0 <= j <= n_len,
            forall|k: int| 0 <= k < j ==> h@[i + k] == n@[k],
        decreases n_len - j,
    {
        if h.get_char(i + j) != n.get_char(j) {
            assert(!substring_at(h@, n@, i as int)) by {
                if h@.subrange(i as int, i + n@.len()) == n@ {
                    assert(h@.subrange(i as int, i + n@.len())[j as int] == n@[j as int]);
                }
            }
            return false;
        }
        j += 1;
    }
    assert(h@.subrange(i as int, i + n@.len()) =~= n@);
    true
}

/// True exactly when `n` occurs as a substring of `h` (character-wise).
pub fn str_has_substring(h: &str, n: &str) -> (r: bool)
    ensures
        r == has_substring(h@, n@),
{
    let h_len = h.unicode_len();
    let n_len = n.unicode_len();
    if n_len > h_len {
        assert(!has_substring(h@, n@)) by {
            assert(forall|i: int| !substring_at(h@, n@, i));
        }
        return false;
    }
    if n_len == 0 {
        assert(substring_at(h@, n@, 0)) by {
            assert(h@.subrange(0, 0) =~= n@);
        }
        return true;
    }
    let mut i: usize = 0;
    while i <= h_len - n_len
        invariant
            h_len == h@.len(),
            n_len == n@.len(),
            1 <= n_len <= h_len,
            0 <= i <= h_len - n_len + 1,
            forall|k: int| 0 <= k < i ==> !substring_at(h@, n@, k),
        decreases h_len - n_len + 1 - i,
    {
        if matches_at(h, n, i) {
            return true;
        }
        i += 1;
    }
    assert(!has_substring(h@, n@)) by {
        assert(forall|k: int| k > h_len - n_len ==> !substring_at(h@, n@, k));
    }
    false
}

/// The prefix of `s` up to (not including) its first space character.
pub fn leading_token(s: &str) -> (t: String)
    ensures
        is_leading_token(s@, t@),
{
    let len = s.unicode_len();
    let mut e: usize = 0;
    while e < len
        invariant
            len == s@.len(),
            0 <= e <= len,
            forall|k: int| 0 <= k < e ==> s@[k] != ' ',
        ensures
            0 <= e <= len,
            forall|k: int| 0 <= k < e ==> s@[k] != ' ',
            e == len || s@[e as int] == ' ',
        decreases len - e,
    {
        if s.get_char(e) == ' ' {
            break;
        }
        e += 1;
    }
    let t = s.substring_char(0, e).to_owned();
    assert(t@ == s@.subrange(0, e as int));
    t
}

} // verus!
