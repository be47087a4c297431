//! Character-level string utilities shared by the parsers: prefix tests,
//! character searches, character-class runs, and case folding for the ASCII
//! letters. Each scanner has a specification function that pins its result.

use vstd::prelude::*;

verus! {

/// An ASCII word character: letter, digit or underscore.
pub open spec fn is_word_char(c: char) -> bool {
    ('a' <= c && c <= 'z') || ('A' <= c && c <= 'Z') || ('0' <= c && c <= '9') || c == '_'
}

/// ASCII whitespace as the line parsers accept it.
pub open spec fn is_space_char(c: char) -> bool {
    c == ' ' || c == '\t' || c == '\r' || c == '\n'
}

/// The lower-case form of an ASCII letter; other characters are unchanged.
pub open spec fn lower_char(c: char) -> char {
    if 'A' <= c && c <= 'Z' {
        (((c as u8) + 32) as char)
    } else {
        c
    }
}

/// Character-wise ASCII lower-casing of a sequence.
pub open spec fn lower(s: Seq<char>) -> Seq<char> {
    s.map_values(|c: char| lower_char(c))
}

/// `p` is a prefix of `s`.
pub open spec fn has_prefix(s: Seq<char>, p: Seq<char>) -> bool {
    p.len() <= s.len() && s.subrange(0, p.len() as int) == p
}

/// Index of the first occurrence of `c` in `s` at or after `from`;
/// `s.len()` when there is none.
pub open spec fn first_at(s: Seq<char>, c: char, from: int) -> int
    decreases s.len() - from,
{
    if from < 0 || from >= s.len() {
        s.len() as int
    } else if s[from] == c {
        from
    } else {
        first_at(s, c, from + 1)
    }
}

/// Index of the last occurrence of `c` in `s`; `-1` when there is none.
pub open spec fn last_at(s: Seq<char>, c: char) -> int
    decreases s.len(),
{
    if s.len() == 0 {
        -1
    } else if s[s.len() - 1] == c {
        s.len() - 1
    } else {
        last_at(s.drop_last(), c)
    }
}

/// End of the run of word characters that starts at `from`: the first index
/// at or after `from` holding no word character, or `s.len()`.
pub open spec fn word_run_end(s: Seq<char>, from: int) -> int
    decreases s.len() - from,
{
    if from < 0 || from >= s.len() {
        from
    } else if is_word_char(s[from]) {
        word_run_end(s, from + 1)
    } else {
        from
    }
}

/// End of the run of word characters and dots that starts at `from`.
pub open spec fn host_run_end(s: Seq<char>, from: int) -> int
    decreases s.len() - from,
{
    if from < 0 || from >= s.len() {
        from
    } else if is_word_char(s[from]) || s[from] == '.' {
        host_run_end(s, from + 1)
    } else {
        from
    }
}

/// End of the run of whitespace that starts at `from`.
pub open spec fn space_run_end(s: Seq<char>, from: int) -> int
    decreases s.len() - from,
{
    if from < 0 || from >= s.len() {
        from
    } else if is_space_char(s[from]) {
        space_run_end(s, from + 1)
    } else {
        from
    }
}

/// Executable test for `is_word_char`.
pub fn word_char(c: char) -> (b: bool)
    ensures
        b == is_word_char(c),
{
    ('a' <= c && c <= 'z') || ('A' <= c && c <= 'Z') || ('0' <= c && c <= '9') || c == '_'
}

/// Executable test for `is_space_char`.
pub fn space_char(c: char) -> (b: bool)
    ensures
        b == is_space_char(c),
{
    c == ' ' || c == '\t' || c == '\r' || c == '\n'
}

/// Executable ASCII lower-casing of one character.
pub fn to_lower_char(c: char) -> (r: char)
    ensures
        r == lower_char(c),
{
    if 'A' <= c && c <= 'Z' {
        ((c as u8) + 32) as char
    } else {
        c
    }
}

/// Character-wise equality of two string slices.
pub fn str_eq(a: &str, b: &str) -> (r: bool)
    ensures
        r == (a@ == b@),
{
    let na = a.unicode_len();
    let nb = b.unicode_len();
    if na != nb {
        proof {
            assert(a@ != b@);
        }
        return false;
    }
    let mut i: usize = 0;
    while i < na
        invariant
            na == a@.len(),
            na == b@.len(),
            i <= na,
            forall|j: int| 0 <= j < i ==> a@[j] == b@[j],
        decreases na - i,
    {
        if a.get_char(i) != b.get_char(i) {
            proof {
                assert(a@ != b@);
            }
            return false;
        }
        i += 1;
    }
    proof {
        assert(a@ =~= b@);
    }
    true
}

/// Whether `s`, lower-cased character by character, equals `t` exactly.
pub fn str_eq_lowered(s: &str, t: &str) -> (r: bool)
    ensures
        r == (lower(s@) == t@),
{
    let ns = s.unicode_len();
    let nt = t.unicode_len();
    proof {
        assert(lower(s@).len() == s@.len());
    }
    if ns != nt {
        proof {
            assert(lower(s@) != t@);
        }
        return false;
    }
    let mut i: usize = 0;
    while i < ns
        invariant
            ns == s@.len(),
            ns == t@.len(),
            i <= ns,
            forall|j: int| 0 <= j < i ==> lower(s@)[j] == t@[j],
        decreases ns - i,
    {
        let c = to_lower_char(s.get_char(i));
        if c != t.get_char(i) {
            proof {
                assert(lower(s@)[i as int] == lower_char(s@[i as int]));
                assert(lower(s@) != t@);
            }
            return false;
        }
        proof {
            assert(lower(s@)[i as int] == lower_char(s@[i as int]));
        }
        i += 1;
    }
    proof {
        assert(lower(s@) =~= t@);
    }
    true
}

/// Executable prefix test.
pub fn str_has_prefix(s: &str, p: &str) -> (r: bool)
    ensures
        r == has_prefix(s@, p@),
{
    let ns = s.unicode_len();
    let np = p.unicode_len();
    if np > ns {
        return false;
    }
    let mut i: usize = 0;
    while i < np
        invariant
            ns == s@.len(),
            np == p@.len(),
            np <= ns,
            i <= np,
            forall|j: int| 0 <= j < i ==> s@[j] == p@[j],
        decreases np - i,
    {
        if s.get_char(i) != p.get_char(i) {
            proof {
                assert(s@.subrange(0, p@.len() as int)[i as int] != p@[i as int]);
            }
            return false;
        }
        i += 1;
    }
    proof {
        assert(s@.subrange(0, p@.len() as int) =~= p@);
    }
    true
}

/// First occurrence of `c` in `s` at or after `from`, as an index;
/// the length of `s` when there is none.
pub fn find_char_from(s: &str, from: usize, c: char) -> (r: usize)
    requires
        from <= s@.len(),
    ensures
        r as int == first_at(s@, c, from as int),
        from <= r <= s@.len(),
        r < s@.len() ==> s@[r as int] == c,
{
    let n = s.unicode_len();
    let mut i: usize = from;
    while i < n
        invariant
            n == s@.len(),
            from <= i <= n,
            first_at(s@, c, from as int) == first_at(s@, c, i as int),
        decreases n - i,
    {
        if s.get_char(i) == c {
            return i;
        }
        i += 1;
    }
    i
}

/// Last occurrence of `c` in `s`, if any.
pub fn rfind_char(s: &str, c: char) -> (r: Option<usize>)
    ensures
        match r {
            Some(k) => k as int == last_at(s@, c) && k < s@.len() && s@[k as int] == c,
            None => last_at(s@, c) == -1,
        },
{
    let n = s.unicode_len();
    let mut i: usize = n;
    proof {
        assert(s@.take(n as int) =~= s@);
    }
    while i > 0
        invariant
            n == s@.len(),
            i <= n,
            last_at(s@, c) == last_at(s@.take(i as int), c),
        decreases i,
    {
        i -= 1;
        let ch = s.get_char(i);
        proof {
            assert(s@.take(i as int + 1).drop_last() =~= s@.take(i as int));
            assert(s@.take(i as int + 1).last() == s@[i as int]);
        }
        if ch == c {
            return Some(i);
        }
    }
    proof {
        assert(s@.take(0) =~= Seq::<char>::empty());
    }
    None
}

/// End of the word-character run starting at `from`.
pub fn scan_word_run(s: &str, from: usize) -> (r: usize)
    requires
        from <= s@.len(),
    ensures
        r as int == word_run_end(s@, from as int),
        from <= r <= s@.len(),
{
    let n = s.unicode_len();
    let mut i: usize = from;
    while i < n && word_char(s.get_char(i))
        invariant
            n == s@.len(),
            from <= i <= n,
            word_run_end(s@, from as int) == word_run_end(s@, i as int),
        decreases n - i,
    {
        i += 1;
    }
    i
}

/// End of the word-or-dot run starting at `from`.
pub fn scan_host_run(s: &str, from: usize) -> (r: usize)
    requires
        from <= s@.len(),
    ensures
        r as int == host_run_end(s@, from as int),
        from <= r <= s@.len(),
{
    let n = s.unicode_len();
    let mut i: usize = from;
    while i < n && (word_char(s.get_char(i)) || s.get_char(i) == '.')
        invariant
            n == s@.len(),
            from <= i <= n,
            host_run_end(s@, from as int) == host_run_end(s@, i as int),
        decreases n - i,
    {
        i += 1;
    }
    i
}

/// End of the whitespace run starting at `from`.
pub fn scan_space_run(s: &str, from: usize) -> (r: usize)
    requires
        from <= s@.len(),
    ensures
        r as int == space_run_end(s@, from as int),
        from <= r <= s@.len(),
{
    let n = s.unicode_len();
    let mut i: usize = from;
    while i < n && space_char(s.get_char(i))
        invariant
            n == s@.len(),
            from <= i <= n,
            space_run_end(s@, from as int) == space_run_end(s@, i as int),
        decreases n - i,
    {
        i += 1;
    }
    i
}

} // verus!
