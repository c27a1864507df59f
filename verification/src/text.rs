//! ASCII case-insensitive text matching over `&str`, used for the
//! distraction-keyword scan and the window denylist / system-path filters.
//!
//! Case folding is ASCII-only: `'A'..='Z'` map to `'a'..='z'`, every other
//! character stands for itself. All matching specs are stated over the
//! folded code sequences.

use vstd::prelude::*;

verus! {

/// The ASCII-folded code of one character.
pub open spec fn lower_code(c: char) -> u32 {
    if 65 <= c as u32 && c as u32 <= 90 {
        (c as u32 + 32) as u32
    } else {
        c as u32
    }
}

/// The ASCII-folded codes of a character sequence.
pub open spec fn lower_codes(s: Seq<char>) -> Seq<u32> {
    s.map_values(|c: char| lower_code(c))
}

/// `n` occurs in `h` at position `i`, comparing folded codes.
pub open spec fn matches_at(h: Seq<char>, n: Seq<char>, i: int) -> bool {
    0 <= i && i + n.len() <= h.len() && lower_codes(h).subrange(
        i,
        i + n.len() as int,
    ) == lower_codes(n)
}

/// `h` contains `n` as a substring, ASCII case-insensitively.
pub open spec fn contains_ci(h: Seq<char>, n: Seq<char>) -> bool {
    exists|i: int| matches_at(h, n, i)
}

/// `p` is a prefix of `s`, ASCII case-insensitively.
pub open spec fn prefix_ci(s: Seq<char>, p: Seq<char>) -> bool {
    matches_at(s, p, 0)
}

fn lower_code_exec(c: char) -> (r: u32)
    ensures
        r == lower_code(c),
{
    let u = c as u32;
    if 65 <= u && u <= 90 {
        u + 32
    } else {
        u
    }
}

fn matches_at_exec(h: &str, n: &str, i: usize) -> (r: bool)
    requires
        i + n@.len() <= h@.len(),
        h@.len() <= usize::MAX,
    ensures
        r == matches_at(h@, n@, i as int),
{
    let n_len = n.unicode_len();
    let mut j: usize = 0;
    while j < n_len
        invariant
            n_len == n@.len(),
            i + n_len <= h@.len(),
            h@.len() <= usize::MAX,
            j <= n_len,
            forall|k: int|
                0 <= k < j ==> lower_code(h@[i + k]) == lower_code(n@[k]),
        decreases n_len - j,
    {
        let hc = lower_code_exec(h.get_char(i + j));
        let nc = lower_code_exec(n.get_char(j));
        if hc != nc {
            assert(lower_codes(h@).subrange(i as int, i + n@.len() as int)[j as int]
                != lower_codes(n@)[j as int]);
            return false;
        }
        j += 1;
    }
    assert(lower_codes(h@).subrange(i as int, i + n@.len() as int) =~= lower_codes(n@));
    true
}

/// Whether `h` contains `n` as a substring, ignoring ASCII case.
pub fn contains_ci_exec(h: &str, n: &str) -> (r: bool)
    ensures
        r == contains_ci(h@, n@),
{
    let h_len = h.unicode_len();
    let n_len = n.unicode_len();
    if n_len > h_len {
        assert(forall|i: int| !matches_at(h@, n@, i));
        return false;
    }
    if n_len == 0 {
        assert(lower_codes(h@).subrange(0, 0) =~= lower_codes(n@));
        assert(matches_at(h@, n@, 0));
        return true;
    }
    let last = h_len - n_len;
    let mut i: usize = 0;
    while i <= last
        invariant
            h_len == h@.len(),
            n_len == n@.len(),
            0 < n_len <= h_len,
            last == h_len - n_len,
            i <= last + 1,
            forall|ii: int| 0 <= ii < i ==> !matches_at(h@, n@, ii),
        decreases last + 1 - i,
    {
        if matches_at_exec(h, n, i) {
            return true;
        }
        i += 1;
    }
    assert(forall|ii: int| ii > last ==> !matches_at(h@, n@, ii));
    false
}

/// Whether `p` is a prefix of `s`, ignoring ASCII case.
pub fn prefix_ci_exec(s: &str, p: &str) -> (r: bool)
    ensures
        r == prefix_ci(s@, p@),
{
    let s_len = s.unicode_len();
    let p_len = p.unicode_len();
    if p_len > s_len {
        return false;
    }
    matches_at_exec(s, p, 0)
}

/// Whether `a` and `b` hold the same characters.
pub fn str_eq(a: &str, b: &str) -> (r: bool)
    ensures
        r == (a@ == b@),
{
    let a_len = a.unicode_len();
    let b_len = b.unicode_len();
    if a_len != b_len {
        return false;
    }
    let mut i: usize = 0;
    while i < a_len
        invariant
            a_len == a@.len(),
            b_len == b@.len(),
            a_len == b_len,
            i <= a_len,
            forall|k: int| 0 <= k < i ==> a@[k] == b@[k],
        decreases a_len - i,
    {
        if a.get_char(i) != b.get_char(i) {
            return false;
        }
        i += 1;
    }
    assert(a@ =~= b@);
    true
}

} // verus!
