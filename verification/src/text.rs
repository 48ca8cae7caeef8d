//! Character-level helpers shared by the whole engine.
//!
//! All engine logic works on `Vec<char>` / `Seq<char>`; these functions
//! convert between `&str`/`String` and character vectors and provide the
//! small amount of string searching the engine needs.

use vstd::prelude::*;
use vstd::string::*;

verus! {

/// Relies on `String::push`: appends the given character at the end of the
/// string.
#[verifier::external_body]
fn push_char(s: &mut String, c: char)
    ensures
        final(s)@ == old(s)@.push(c),
{
    s.push(c);
}

/// Collects the characters of a string slice into a vector.
pub fn str_to_chars(s: &str) -> (r: Vec<char>)
    ensures
        r@ == s@,
{
    let n = s.unicode_len();
    let mut r: Vec<char> = Vec::new();
    let mut i: usize = 0;
    while i < n
        invariant
            i <= n,
            n == s@.len(),
            r@ == s@.take(i as int),
        decreases n - i,
    {
        let c = s.get_char(i);
        r.push(c);
        proof {
            assert(s@.take(i + 1 as int) =~= s@.take(i as int).push(c));
        }
        i = i + 1;
    }
    proof {
        assert(s@.take(n as int) =~= s@);
    }
    r
}

/// Builds a `String` out of a character vector.
pub fn chars_to_string(v: &Vec<char>) -> (r: String)
    ensures
        r@ == v@,
{
    let mut r = String::new();
    let mut i: usize = 0;
    while i < v.len()
        invariant
            i <= v@.len(),
            r@ == v@.take(i as int),
        decreases v@.len() - i,
    {
        push_char(&mut r, v[i]);
        proof {
            assert(v@.take(i + 1 as int) =~= v@.take(i as int).push(v@[i as int]));
        }
        i = i + 1;
    }
    proof {
        assert(v@.take(v@.len() as int) =~= v@);
    }
    r
}

/// Compares two character vectors for equality.
pub fn chars_eq(a: &Vec<char>, b: &Vec<char>) -> (r: bool)
    ensures
        r == (a@ == b@),
{
    if a.len() != b.len() {
        return false;
    }
    let mut i: usize = 0;
    while i < a.len()
        invariant
            i <= a@.len(),
            a@.len() == b@.len(),
            forall|j: int| 0 <= j < i ==> a@[j] == b@[j],
        decreases a@.len() - i,
    {
        if a[i] != b[i] {
            return false;
        }
        i = i + 1;
    }
    proof {
        assert(a@ =~= b@);
    }
    true
}

/// Compares two string slices for equality of their character sequences.
pub fn str_eq(a: &str, b: &str) -> (r: bool)
    ensures
        r == (a@ == b@),
{
    let av = str_to_chars(a);
    let bv = str_to_chars(b);
    chars_eq(&av, &bv)
}

/// Concatenates two string slices into a fresh `String`.
pub fn str_concat(a: &str, b: &str) -> (r: String)
    ensures
        r@ == a@ + b@,
{
    let mut r = String::from_str(a);
    r.append(b);
    r
}

/// Index of the first occurrence of `c` in `s` at or after `from`.
pub open spec fn spec_find(s: Seq<char>, c: char, from: int) -> Option<int>
    decreases s.len() - from,
{
    if from < 0 || from >= s.len() {
        None
    } else if s[from] == c {
        Some(from)
    } else {
        spec_find(s, c, from + 1)
    }
}

/// A found index lies in range, holds `c`, and nothing before it does.
pub proof fn lemma_spec_find_props(s: Seq<char>, c: char, from: int)
    requires
        0 <= from,
    ensures
        match spec_find(s, c, from) {
            Some(j) => from <= j < s.len() && s[j] == c && (forall|k: int|
                from <= k < j ==> s[k] != c),
            None => forall|k: int| from <= k < s.len() ==> s[k] != c,
        },
    decreases s.len() - from,
{
    if from < s.len() && s[from] != c {
        lemma_spec_find_props(s, c, from + 1);
    }
}

/// Finding in a prefix is unchanged by appending more text after a hit.
pub proof fn lemma_spec_find_extend(s: Seq<char>, ext: Seq<char>, c: char, from: int, j: int)
    requires
        0 <= from,
        spec_find(s, c, from) == Some(j),
    ensures
        spec_find(s + ext, c, from) == Some(j),
    decreases s.len() - from,
{
    lemma_spec_find_props(s, c, from);
    assert(0 <= from <= j < s.len());
    assert((s + ext)[from] == s[from]);
    if s[from] != c {
        lemma_spec_find_extend(s, ext, c, from + 1, j);
    }
}

/// Truncating just after a hit does not change the result of the search.
pub proof fn lemma_spec_find_take(s: Seq<char>, c: char, from: int, j: int)
    requires
        0 <= from,
        spec_find(s, c, from) == Some(j),
    ensures
        spec_find(s.take(j + 1), c, from) == Some(j),
{
    lemma_spec_find_props(s, c, from);
    lemma_spec_find_in_range(s.take(j + 1), c, from, j);
}

/// If `c` first appears at `j`, any sequence agreeing on `[from, j]` finds `j`.
proof fn lemma_spec_find_in_range(s: Seq<char>, c: char, from: int, j: int)
    requires
        0 <= from <= j < s.len(),
        s[j] == c,
        forall|k: int| from <= k < j ==> s[k] != c,
    ensures
        spec_find(s, c, from) == Some(j),
    decreases j - from,
{
    if from < j {
        lemma_spec_find_in_range(s, c, from + 1, j);
    }
}

/// Finds the first occurrence of `c` in `v` at or after `from`.
pub fn find_char(v: &Vec<char>, c: char, from: usize) -> (r: Option<usize>)
    ensures
        match r {
            Some(j) => spec_find(v@, c, from as int) == Some(j as int),
            None => spec_find(v@, c, from as int) is None,
        },
{
    let mut i: usize = from;
    if i > v.len() {
        i = v.len();
        proof {
            lemma_spec_find_props(v@, c, from as int);
        }
        return None;
    }
    while i < v.len()
        invariant
            from <= i <= v@.len(),
            spec_find(v@, c, from as int) == spec_find(v@, c, i as int),
        decreases v@.len() - i,
    {
        if v[i] == c {
            return Some(i);
        }
        i = i + 1;
    }
    None
}

/// Whether `suffix` is a suffix of `s`.
pub open spec fn spec_ends_with(s: Seq<char>, suffix: Seq<char>) -> bool {
    s.len() >= suffix.len() && s.subrange(s.len() - suffix.len(), s.len() as int) == suffix
}

/// Whether the string `s` ends with the given suffix.
pub fn str_ends_with(s: &str, suffix: &str) -> (r: bool)
    ensures
        r == spec_ends_with(s@, suffix@),
{
    let sv = str_to_chars(s);
    let xv = str_to_chars(suffix);
    if sv.len() < xv.len() {
        proof {
            assert(!spec_ends_with(s@, suffix@));
        }
        return false;
    }
    let off = sv.len() - xv.len();
    let mut i: usize = 0;
    while i < xv.len()
        invariant
            i <= xv@.len(),
            xv@.len() <= sv@.len(),
            sv@.len() <= usize::MAX,
            off == sv@.len() - xv@.len(),
            sv@ == s@,
            xv@ == suffix@,
            forall|j: int| 0 <= j < i ==> sv@[off + j] == xv@[j],
        decreases xv@.len() - i,
    {
        if sv[off + i] != xv[i] {
            proof {
                assert(s@.subrange(s@.len() - suffix@.len(), s@.len() as int)[i as int]
                    == s@[off + i]);
            }
            return false;
        }
        i = i + 1;
    }
    proof {
        assert(s@.subrange(s@.len() - suffix@.len(), s@.len() as int) =~= suffix@);
    }
    true
}

/// Appends all characters of `src` to `out`.
pub fn push_all(out: &mut Vec<char>, src: &Vec<char>)
    ensures
        final(out)@ == old(out)@ + src@,
{
    let mut i: usize = 0;
    while i < src.len()
        invariant
            i <= src@.len(),
            out@ == old(out)@ + src@.take(i as int),
        decreases src@.len() - i,
    {
        out.push(src[i]);
        proof {
            assert(old(out)@ + src@.take(i + 1 as int) =~= (old(out)@ + src@.take(
                i as int,
            )).push(src@[i as int]));
        }
        i = i + 1;
    }
    proof {
        assert(src@.take(src@.len() as int) =~= src@);
    }
}

/// Searching a suffix is searching the whole text at an offset.
pub proof fn lemma_spec_find_shift(s: Seq<char>, c: char, k: int, from: int)
    requires
        0 <= k,
        0 <= from,
        k + from <= s.len(),
    ensures
        spec_find(s.skip(k), c, from) == match spec_find(s, c, k + from) {
            None => None::<int>,
            Some(j) => Some(j - k),
        },
    decreases s.len() - k - from,
{
    if k + from < s.len() {
        assert(s.skip(k)[from] == s[k + from]);
        if s[k + from] != c {
            lemma_spec_find_shift(s, c, k, from + 1);
        }
    }
}

/// Copies the characters `v[from..to]` into a fresh vector.
pub fn chars_slice(v: &Vec<char>, from: usize, to: usize) -> (r: Vec<char>)
    requires
        from <= to <= v@.len(),
    ensures
        r@ == v@.subrange(from as int, to as int),
{
    let mut r: Vec<char> = Vec::new();
    let mut i: usize = from;
    while i < to
        invariant
            from <= i <= to <= v@.len(),
            r@ == v@.subrange(from as int, i as int),
        decreases to - i,
    {
        r.push(v[i]);
        proof {
            assert(v@.subrange(from as int, i + 1 as int) =~= v@.subrange(
                from as int,
                i as int,
            ).push(v@[i as int]));
        }
        i = i + 1;
    }
    r
}

/// Whether `prefix` is a prefix of `s`.
pub open spec fn spec_starts_with(s: Seq<char>, prefix: Seq<char>) -> bool {
    s.len() >= prefix.len() && s.subrange(0, prefix.len() as int) == prefix
}

/// Whether the string `s` starts with the given prefix.
pub fn str_starts_with(s: &str, prefix: &str) -> (r: bool)
    ensures
        r == spec_starts_with(s@, prefix@),
{
    let sv = str_to_chars(s);
    let pv = str_to_chars(prefix);
    chars_start_with(&sv, &pv)
}

/// Whether the character vector `v` starts with `prefix`.
pub fn chars_start_with(v: &Vec<char>, prefix: &Vec<char>) -> (r: bool)
    ensures
        r == spec_starts_with(v@, prefix@),
{
    if v.len() < prefix.len() {
        return false;
    }
    let mut i: usize = 0;
    while i < prefix.len()
        invariant
            i <= prefix@.len(),
            prefix@.len() <= v@.len(),
            forall|j: int| 0 <= j < i ==> v@[j] == prefix@[j],
        decreases prefix@.len() - i,
    {
        if v[i] != prefix[i] {
            proof {
                assert(v@.subrange(0, prefix@.len() as int)[i as int] == v@[i as int]);
            }
            return false;
        }
        i = i + 1;
    }
    proof {
        assert(v@.subrange(0, prefix@.len() as int) =~= prefix@);
    }
    true
}

/// The path with every forward slash replaced by a backslash.
pub open spec fn spec_backslashed(s: Seq<char>) -> Seq<char> {
    s.map_values(|c: char| if c == '/' { '\\' } else { c })
}

/// Rewrites a path for the host convention: with `backslashes` set, every
/// `/` becomes `\`; otherwise the path is returned unchanged.
pub fn translate_path(path: &str, backslashes: bool) -> (r: String)
    ensures
        r@ == if backslashes { spec_backslashed(path@) } else { path@ },
{
    if !backslashes {
        return String::from_str(path);
    }
    let v = str_to_chars(path);
    let mut out: Vec<char> = Vec::new();
    let mut i: usize = 0;
    while i < v.len()
        invariant
            i <= v@.len(),
            v@ == path@,
            out@.len() == i,
            forall|j: int| 0 <= j < i ==> out@[j] == (if v@[j] == '/' { '\\' } else { v@[j] }),
        decreases v@.len() - i,
    {
        let c = v[i];
        if c == '/' {
            out.push('\\');
        } else {
            out.push(c);
        }
        i = i + 1;
    }
    proof {
        assert(out@ =~= spec_backslashed(path@));
    }
    chars_to_string(&out)
}

} // verus!
