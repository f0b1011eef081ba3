//! Character-level helpers shared by the parsers.

use vstd::prelude::*;

verus! {

/// `String::push` appends exactly one character to the end of the string.
pub assume_specification[ String::push ](s: &mut String, ch: char)
    ensures
        final(s)@ == old(s)@.push(ch),
;

/// The characters of `s`, in order.
pub fn chars_of(s: &str) -> (out: Vec<char>)
    ensures
        out@ == s@,
{
    let n = s.unicode_len();
    let mut out: Vec<char> = Vec::new();
    let mut i: usize = 0;
    while i < n
        invariant
            n == s@.len(),
            i <= n,
            out@ == s@.subrange(0, i as int),
        decreases n - i,
    {
        let c = s.get_char(i);
        out.push(c);
        i = i + 1;
        assert(out@ == s@.subrange(0, i as int));
    }
    assert(s@.subrange(0, n as int) == s@);
    out
}

/// The string spelled by `chars[from..to]`.
pub fn string_of(chars: &Vec<char>, from: usize, to: usize) -> (out: String)
    requires
        from <= to <= chars@.len(),
    ensures
        out@ == chars@.subrange(from as int, to as int),
{
    let mut out = String::new();
    let mut i: usize = from;
    while i < to
        invariant
            from <= i <= to <= chars@.len(),
            out@ == chars@.subrange(from as int, i as int),
        decreases to - i,
    {
        out.push(chars[i]);
        i = i + 1;
        assert(out@ == chars@.subrange(from as int, i as int));
    }
    out
}

/// Position of the first `sep` in `s`, or `s.len()` when there is none.
pub open spec fn index_of(s: Seq<char>, sep: char) -> int
    decreases s.len(),
{
    if s.len() == 0 || s[0] == sep {
        0
    } else {
        1 + index_of(s.drop_first(), sep)
    }
}

/// The fields of `s` between occurrences of `sep`; a text without `sep` is
/// its own single field.
pub open spec fn split(s: Seq<char>, sep: char) -> Seq<Seq<char>>
    decreases s.len(),
{
    let k = index_of(s, sep);
    if 0 <= k < s.len() {
        seq![s.subrange(0, k)] + split(s.subrange(k + 1, s.len() as int), sep)
    } else {
        seq![s]
    }
}

/// The views of a vector of character vectors.
pub open spec fn views(parts: Seq<Vec<char>>) -> Seq<Seq<char>> {
    Seq::new(parts.len(), |i: int| parts[i]@)
}

/// The views of a vector of strings.
pub open spec fn texts(strings: Seq<String>) -> Seq<Seq<char>> {
    Seq::new(strings.len(), |i: int| strings[i]@)
}

/// `index_of` is the position `k` when `sep` stands at `k` and nowhere before.
pub proof fn lemma_index_of_found(s: Seq<char>, sep: char, k: int)
    requires
        0 <= k < s.len(),
        s[k] == sep,
        forall|j: int| 0 <= j < k ==> s[j] != sep,
    ensures
        index_of(s, sep) == k,
    decreases k,
{
    if k > 0 {
        lemma_index_of_found(s.drop_first(), sep, k - 1);
    }
}

/// `index_of` is the length when `sep` does not occur.
pub proof fn lemma_index_of_absent(s: Seq<char>, sep: char)
    requires
        forall|j: int| 0 <= j < s.len() ==> s[j] != sep,
    ensures
        index_of(s, sep) == s.len(),
    decreases s.len(),
{
    if s.len() > 0 {
        lemma_index_of_absent(s.drop_first(), sep);
    }
}

/// `index_of` points at `sep` or at the end, and never skips a `sep`.
pub proof fn lemma_index_of_bounds(s: Seq<char>, sep: char)
    ensures
        0 <= index_of(s, sep) <= s.len(),
        index_of(s, sep) < s.len() ==> s[index_of(s, sep)] == sep,
        forall|j: int| 0 <= j < index_of(s, sep) ==> s[j] != sep,
    decreases s.len(),
{
    if s.len() > 0 && s[0] != sep {
        lemma_index_of_bounds(s.drop_first(), sep);
        assert forall|j: int| 0 <= j < index_of(s, sep) implies s[j] != sep by {
            if j > 0 {
                assert(s.drop_first()[j - 1] == s[j]);
            }
        }
    }
}

/// Splits `chars` at every `sep`.
pub fn split_chars(chars: &Vec<char>, sep: char) -> (out: Vec<Vec<char>>)
    ensures
        views(out@) == split(chars@, sep),
        out@.len() >= 1,
{
    let n = chars.len();
    let mut out: Vec<Vec<char>> = Vec::new();
    let mut field: Vec<char> = Vec::new();
    let mut start: usize = 0;
    let mut i: usize = 0;
    proof {
        assert(chars@.subrange(0, n as int) == chars@);
        assert(views(out@) + split(chars@, sep) == split(chars@, sep));
    }
    while i < n
        invariant
            n == chars@.len(),
            start <= i <= n,
            field@ == chars@.subrange(start as int, i as int),
            forall|j: int| start <= j < i ==> chars@[j] != sep,
            split(chars@, sep) == views(out@) + split(chars@.subrange(start as int, n as int), sep),
        decreases n - i,
    {
        let c = chars[i];
        if c == sep {
            proof {
                let rest = chars@.subrange(start as int, n as int);
                lemma_index_of_found(rest, sep, i - start);
                assert(rest.subrange(0, i - start) == field@);
                assert(rest.subrange(i - start + 1, rest.len() as int) == chars@.subrange(
                    i + 1,
                    n as int,
                ));
                assert(views(out@.push(field)) == views(out@) + seq![field@]);
            }
            out.push(field);
            field = Vec::new();
            start = i + 1;
        } else {
            field.push(c);
        }
        i = i + 1;
        assert(field@ == chars@.subrange(start as int, i as int));
    }
    proof {
        let rest = chars@.subrange(start as int, n as int);
        lemma_index_of_absent(rest, sep);
        assert(rest == field@);
        assert(views(out@.push(field)) == views(out@) + seq![field@]);
    }
    out.push(field);
    out
}

} // verus!
