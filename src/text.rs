//! Character-level helpers over the views of strings.

use vstd::prelude::*;

verus! {

/// Whether `needle` occurs as a contiguous run of `hay` starting at `at`.
pub open spec fn occurs_at(hay: Seq<char>, needle: Seq<char>, at: int) -> bool {
    0 <= at && at + needle.len() <= hay.len() && hay.subrange(at, at + needle.len()) == needle
}

/// Whether `needle` occurs anywhere in `hay`.
pub open spec fn is_infix(hay: Seq<char>, needle: Seq<char>) -> bool {
    exists|at: int| occurs_at(hay, needle, at)
}

/// Index of the first occurrence of `c` in `s`, or -1 when there is none.
pub open spec fn first_index_of(s: Seq<char>, c: char) -> int
    decreases s.len(),
{
    if s.len() == 0 {
        -1
    } else {
        let r = first_index_of(s.drop_last(), c);
        if r >= 0 {
            r
        } else if s.last() == c {
            s.len() - 1
        } else {
            -1
        }
    }
}

/// The view of an optional string.
pub open spec fn opt_view(o: Option<String>) -> Option<Seq<char>> {
    match o {
        Some(s) => Some(s@),
        None => None,
    }
}

/// The characters of a string slice, in order.
pub fn chars_of(s: &str) -> (r: Vec<char>)
    ensures
        r@ == s@,
{
    let mut out: Vec<char> = Vec::new();
    for c in it: s.chars()
        invariant
            it.seq() == s@,
            out@ == it.seq().subrange(0, it.index() as int),
    {
        out.push(c);
    }
    proof {
        assert(out@ =~= s@);
    }
    out
}


/// The character sequence that `str::to_uppercase` yields for `s`.
pub uninterp spec fn upper_of(s: Seq<char>) -> Seq<char>;

/// The character sequence that `str::to_lowercase` yields for `s`.
pub uninterp spec fn lower_of(s: Seq<char>) -> Seq<char>;

/// Relies on `str::to_uppercase`: its result depends on the characters of `s`
/// alone, and the empty string stays empty.
#[verifier::external_body]
pub(crate) fn uppercase(s: &str) -> (r: String)
    ensures
        r@ == upper_of(s@),
        s@.len() == 0 ==> r@.len() == 0,
{
    s.to_uppercase()
}

/// Relies on `str::to_lowercase`: its result depends on the characters of `s`
/// alone, and the empty string stays empty.
#[verifier::external_body]
pub(crate) fn lowercase(s: &str) -> (r: String)
    ensures
        r@ == lower_of(s@),
        s@.len() == 0 ==> r@.len() == 0,
{
    s.to_lowercase()
}

/// Position of the first `c` in `v`, if any.
pub fn find_char(v: &Vec<char>, c: char) -> (r: Option<usize>)
    ensures
        match r {
            Some(i) => i < v.len() && first_index_of(v@, c) == i as int,
            None => first_index_of(v@, c) == -1,
        },
{
    assert(v@.subrange(0, v@.len() as int) =~= v@);
    find_char_from(v, 0, c)
}

/// Position of the first `c` in `v[lo..]`, if any, counted from the start
/// of `v`.
pub fn find_char_from(v: &Vec<char>, lo: usize, c: char) -> (r: Option<usize>)
    requires
        lo <= v.len(),
    ensures
        match r {
            Some(i) => lo <= i < v.len() && first_index_of(v@.subrange(lo as int, v.len() as int), c)
                == i - lo,
            None => first_index_of(v@.subrange(lo as int, v.len() as int), c) == -1,
        },
{
    let ghost tail = v@.subrange(lo as int, v.len() as int);
    let mut k: usize = lo;
    assert(tail.subrange(0, 0) =~= Seq::<char>::empty());
    while k < v.len()
        invariant
            lo <= k <= v.len(),
            tail == v@.subrange(lo as int, v.len() as int),
            first_index_of(tail.subrange(0, k - lo), c) == -1,
        decreases v.len() - k,
    {
        assert(tail.subrange(0, k - lo + 1).drop_last() =~= tail.subrange(0, k - lo));
        assert(tail.subrange(0, k - lo + 1).last() == v@[k as int]);
        if v[k] == c {
            proof {
                lemma_first_index_prefix(tail, c, k - lo + 1);
            }
            return Some(k);
        }
        k = k + 1;
    }
    assert(tail.subrange(0, k - lo) =~= tail);
    None
}

/// A first occurrence found in a prefix is the first occurrence in the whole.
pub proof fn lemma_first_index_prefix(s: Seq<char>, c: char, n: int)
    requires
        0 <= n <= s.len(),
        first_index_of(s.subrange(0, n), c) >= 0,
    ensures
        first_index_of(s, c) == first_index_of(s.subrange(0, n), c),
    decreases s.len() - n,
{
    if n < s.len() {
        assert(s.subrange(0, n + 1).drop_last() =~= s.subrange(0, n));
        lemma_first_index_prefix(s, c, n + 1);
    } else {
        assert(s.subrange(0, n) =~= s);
    }
}

/// Whether `c` occurs in `v[lo..hi]`.
pub fn contains_char(v: &Vec<char>, lo: usize, hi: usize, c: char) -> (r: bool)
    requires
        lo <= hi <= v.len(),
    ensures
        r == v@.subrange(lo as int, hi as int).contains(c),
{
    let mut k: usize = lo;
    while k < hi
        invariant
            lo <= k <= hi <= v.len(),
            forall|j: int| lo <= j < k ==> v@[j] != c,
        decreases hi - k,
    {
        if v[k] == c {
            assert(v@.subrange(lo as int, hi as int)[k - lo] == c);
            return true;
        }
        k = k + 1;
    }
    assert forall|j: int| 0 <= j < hi - lo implies v@.subrange(lo as int, hi as int)[j] != c by {
        assert(v@[lo + j] != c);
    }
    false
}

/// Whether `needle` occurs in `hay` at position `at`.
fn matches_at(hay: &Vec<char>, needle: &Vec<char>, at: usize) -> (r: bool)
    requires
        at <= hay.len(),
    ensures
        r == occurs_at(hay@, needle@, at as int),
{
    if needle.len() > hay.len() - at {
        return false;
    }
    let mut k: usize = 0;
    while k < needle.len()
        invariant
            k <= needle.len(),
            at + needle.len() <= hay.len(),
            forall|j: int| 0 <= j < k ==> hay@[at + j] == needle@[j],
        decreases needle.len() - k,
    {
        if hay[at + k] != needle[k] {
            assert(hay@.subrange(at as int, at + needle.len())[k as int] != needle@[k as int]);
            return false;
        }
        k = k + 1;
    }
    assert(hay@.subrange(at as int, at + needle.len()) =~= needle@);
    true
}

/// Whether `needle` occurs anywhere in `hay`.
pub fn contains_seq(hay: &Vec<char>, needle: &Vec<char>) -> (r: bool)
    ensures
        r == is_infix(hay@, needle@),
{
    let mut at: usize = 0;
    while at < hay.len()
        invariant
            at <= hay.len(),
            forall|j: int| 0 <= j < at ==> !occurs_at(hay@, needle@, j),
        decreases hay.len() - at,
    {
        if matches_at(hay, needle, at) {
            return true;
        }
        at = at + 1;
    }
    if matches_at(hay, needle, at) {
        return true;
    }
    assert forall|j: int| !occurs_at(hay@, needle@, j) by {
        if 0 <= j && j + needle@.len() <= hay@.len() {
            assert(j <= at);
        }
    }
    false
}

/// Whether two string slices hold the same characters.
pub fn same_text(a: &str, b: &str) -> (r: bool)
    ensures
        r == (a@ == b@),
{
    let x = chars_of(a);
    let y = chars_of(b);
    if x.len() != y.len() {
        assert(x@.len() != y@.len());
        return false;
    }
    let mut k: usize = 0;
    while k < x.len()
        invariant
            x@ == a@,
            y@ == b@,
            x.len() == y.len(),
            k <= x.len(),
            forall|j: int| 0 <= j < k ==> x@[j] == y@[j],
        decreases x.len() - k,
    {
        if x[k] != y[k] {
            assert(x@[k as int] != y@[k as int]);
            return false;
        }
        k = k + 1;
    }
    assert(x@ =~= y@);
    true
}

/// A line without the carriage return that ended it, if any.
pub open spec fn strip_cr(l: Seq<char>) -> Seq<char> {
    if l.len() > 0 && l.last() == '\r' {
        l.drop_last()
    } else {
        l
    }
}

/// The lines of a text: the pieces between line feeds, each without a
/// carriage return before its line feed. A final line feed ends the last
/// line and starts no new one; an empty text has no lines.
pub open spec fn lines_of(s: Seq<char>) -> Seq<Seq<char>>
    decreases s.len(),
{
    if s.len() == 0 {
        seq![]
    } else {
        let i = first_index_of(s, '\n');
        if i < 0 || i >= s.len() {
            seq![s]
        } else {
            seq![strip_cr(s.subrange(0, i))] + lines_of(s.subrange(i + 1, s.len() as int))
        }
    }
}

/// Splits a text into its lines.
pub fn split_lines(text: &str) -> (r: Vec<String>)
    ensures
        r@.map_values(|l: String| l@) == lines_of(text@),
{
    let v = chars_of(text);
    let n = v.len();
    let mut out: Vec<String> = Vec::new();
    let mut start: usize = 0;
    assert(text@.subrange(0, n as int) =~= text@);
    assert(out@.map_values(|l: String| l@) + lines_of(text@) =~= lines_of(text@));
    while start < n
        invariant
            v@ == text@,
            n == v.len(),
            start <= n,
            lines_of(text@) == out@.map_values(|l: String| l@) + lines_of(
                text@.subrange(start as int, n as int),
            ),
        decreases n - start,
    {
        let ghost rest = text@.subrange(start as int, n as int);
        match find_char_from(&v, start, '\n') {
            Some(i) => {
                let piece = text.substring_char(start, i);
                let plen = i - start;
                let line = if plen > 0 && v[i - 1] == '\r' {
                    String::from_str(text.substring_char(start, i - 1))
                } else {
                    String::from_str(piece)
                };
                proof {
                    let p = rest.subrange(0, i - start);
                    assert(piece@ =~= p);
                    if plen > 0 {
                        assert(p.last() == v@[i - 1]);
                        assert(p.drop_last() =~= text@.subrange(start as int, i - 1));
                    }
                    assert(line@ == strip_cr(p));
                    assert(rest.subrange(i - start + 1, rest.len() as int) =~= text@.subrange(
                        i + 1,
                        n as int,
                    ));
                }
                let ghost before = out@.map_values(|l: String| l@);
                out.push(line);
                assert(out@.map_values(|l: String| l@) =~= before.push(line@));
                start = i + 1;
            },
            None => {
                let line = String::from_str(text.substring_char(start, n));
                let ghost before = out@.map_values(|l: String| l@);
                out.push(line);
                assert(out@.map_values(|l: String| l@) =~= before.push(line@));
                assert(text@.subrange(n as int, n as int) =~= Seq::<char>::empty());
                start = n;
            },
        }
    }
    assert(text@.subrange(n as int, n as int) =~= Seq::<char>::empty());
    assert(out@.map_values(|l: String| l@) + seq![] =~= out@.map_values(|l: String| l@));
    out
}

} // verus!
