//! Small verified helpers over strings, shared by the parsers.

use vstd::prelude::*;
use vstd::string::*;

verus! {

/// True iff the first `i` characters of `s` and `prefix` agree.
pub open spec fn chars_agree_up_to(s: Seq<char>, prefix: Seq<char>, i: int) -> bool {
    forall|j: int| 0 <= j < i ==> s[j] == prefix[j]
}

/// Whether `prefix@` is a prefix of `s@`, decided character by character.
pub fn str_starts_with(s: &str, prefix: &str) -> (r: bool)
    ensures
        r == prefix@.is_prefix_of(s@),
{
    let n = prefix.unicode_len();
    if n > s.unicode_len() {
        return false;
    }
    let mut i: usize = 0;
    while i < n
        invariant
            i <= n,
            n == prefix@.len(),
            n <= s@.len(),
            chars_agree_up_to(s@, prefix@, i as int),
        decreases n - i,
    {
        if s.get_char(i) != prefix.get_char(i) {
            proof {
                assert(s@.subrange(0, prefix@.len() as int)[i as int] == s@[i as int]);
            }
            return false;
        }
        i += 1;
    }
    proof {
        assert(prefix@ =~= s@.subrange(0, prefix@.len() as int));
    }
    true
}

/// Whether `c` occurs in `s`.
pub open spec fn spec_has_char(s: Seq<char>, c: char) -> bool {
    exists|i: int| 0 <= i < s.len() && s[i] == c
}

/// The views of a sequence of owned strings.
pub open spec fn spec_views(parts: Seq<String>) -> Seq<Seq<char>> {
    parts.map_values(|p: String| p@)
}

/// Splitting `s` on `sep`: the segments between separators, in
/// order.  An empty input yields one empty segment, as `str::split`
/// does; `n` separators yield `n + 1` segments.
pub open spec fn spec_split_on(s: Seq<char>, sep: char) -> Seq<Seq<char>>
    decreases s.len(),
{
    if s.len() == 0 {
        seq![Seq::<char>::empty()]
    } else {
        let init = spec_split_on(s.drop_last(), sep);
        if s.last() == sep {
            init.push(Seq::<char>::empty())
        } else {
            init.update(init.len() - 1, init.last().push(s.last()))
        }
    }
}

/// A split always has at least one segment.
pub proof fn lemma_split_on_nonempty(s: Seq<char>, sep: char)
    ensures
        spec_split_on(s, sep).len() >= 1,
    decreases s.len(),
{
    if s.len() > 0 {
        lemma_split_on_nonempty(s.drop_last(), sep);
    }
}

/// A string containing the separator splits into at least two
/// segments.
pub proof fn lemma_split_on_with_sep(s: Seq<char>, sep: char)
    requires
        spec_has_char(s, sep),
    ensures
        spec_split_on(s, sep).len() >= 2,
    decreases s.len(),
{
    lemma_split_on_nonempty(s, sep);
    if s.len() > 0 {
        lemma_split_on_nonempty(s.drop_last(), sep);
        if s.last() != sep {
            let i = choose|i: int| 0 <= i < s.len() && s[i] == sep;
            assert(s.drop_last()[i] == sep);
            lemma_split_on_with_sep(s.drop_last(), sep);
        }
    }
}

/// Splits `s` on `sep` into owned segments.
pub fn split_str(s: &str, sep: char) -> (r: Vec<String>)
    ensures
        spec_views(r@) == spec_split_on(s@, sep),
{
    let n = s.unicode_len();
    let mut parts: Vec<String> = Vec::new();
    let mut start: usize = 0;
    let mut i: usize = 0;
    proof {
        assert(spec_split_on(s@.take(0), sep) =~~= spec_views(parts@).push(s@.subrange(0, 0)));
    }
    while i < n
        invariant
            start <= i <= n,
            n == s@.len(),
            spec_split_on(s@.take(i as int), sep) =~~= spec_views(parts@).push(
                s@.subrange(start as int, i as int),
            ),
        decreases n - i,
    {
        let ghost prev_parts = parts@;
        let ghost prev_start = start as int;
        let c = s.get_char(i);
        if c == sep {
            let seg = s.substring_char(start, i);
            parts.push(String::from_str(seg));
            start = i + 1;
        }
        i += 1;
        proof {
            let t = s@.take(i as int);
            assert(t.drop_last() =~= s@.take(i - 1));
            assert(t.last() == s@[i - 1]);
            if c == sep {
                assert(spec_views(parts@) =~= spec_views(prev_parts).push(
                    s@.subrange(prev_start, i - 1),
                ));
                assert(spec_split_on(t, sep) =~~= spec_views(parts@).push(
                    s@.subrange(start as int, i as int),
                ));
            } else {
                assert(s@.subrange(prev_start, i - 1).push(s@[i - 1]) =~= s@.subrange(
                    prev_start,
                    i as int,
                ));
                assert(spec_split_on(t, sep) =~~= spec_views(parts@).push(
                    s@.subrange(start as int, i as int),
                ));
            }
        }
    }
    let seg = s.substring_char(start, n);
    parts.push(String::from_str(seg));
    proof {
        assert(s@.take(n as int) =~= s@);
        assert(spec_views(parts@) =~~= spec_split_on(s@, sep));
    }
    parts
}

/// Whether `c` occurs in `s`, decided by scanning.
pub fn str_contains_char(s: &str, c: char) -> (r: bool)
    ensures
        r == spec_has_char(s@, c),
{
    let n = s.unicode_len();
    let mut i: usize = 0;
    while i < n
        invariant
            i <= n,
            n == s@.len(),
            forall|j: int| 0 <= j < i ==> s@[j] != c,
        decreases n - i,
    {
        if s.get_char(i) == c {
            return true;
        }
        i += 1;
    }
    false
}

/// Whether `a@` and `b@` are the same character sequence.
pub fn str_eq(a: &str, b: &str) -> (r: bool)
    ensures
        r == (a@ == b@),
{
    let n = a.unicode_len();
    if n != b.unicode_len() {
        return false;
    }
    let mut i: usize = 0;
    while i < n
        invariant
            i <= n,
            n == a@.len(),
            n == b@.len(),
            chars_agree_up_to(a@, b@, i as int),
        decreases n - i,
    {
        if a.get_char(i) != b.get_char(i) {
            return false;
        }
        i += 1;
    }
    proof {
        assert(a@ =~= b@);
    }
    true
}

} // verus!
