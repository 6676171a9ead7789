//! Character-level helpers: turning text into characters and back, and
//! literal substring search.

use vstd::prelude::*;

verus! {

/// Taken on trust from the documentation of std's `String::push`: the
/// string afterwards is the string before with `c` added at its end.
pub assume_specification[ String::push ](s: &mut String, c: char)
    ensures
        final(s)@ == old(s)@.push(c),
;

/// The characters of `s`, in order.
pub fn chars_of(s: &str) -> (v: Vec<char>)
    ensures
        v@ == s@,
{
    let mut v: Vec<char> = Vec::new();
    for c in it: s.chars()
        invariant
            v@ == it.seq().take(it.index() as int),
    {
        v.push(c);
    }
    v
}

/// The text made of the characters `v[from..to]`.
pub fn string_of(v: &Vec<char>, from: usize, to: usize) -> (s: String)
    requires
        from <= to <= v@.len(),
    ensures
        s@ == v@.subrange(from as int, to as int),
{
    let mut s = String::new();
    let mut i: usize = from;
    while i < to
        invariant
            from <= i <= to <= v@.len(),
            s@ == v@.subrange(from as int, i as int),
        decreases to - i,
    {
        s.push(v[i]);
        i += 1;
    }
    s
}

/// `pat` stands in `line` starting at position `i`.
pub open spec fn occurs_at(line: Seq<char>, pat: Seq<char>, i: int) -> bool {
    &&& 0 <= i
    &&& i + pat.len() <= line.len()
    &&& line.subrange(i, i + pat.len()) == pat
}

/// `pat` is a literal, case-sensitive substring of `line`.
pub open spec fn contains(line: Seq<char>, pat: Seq<char>) -> bool {
    exists|i: int| occurs_at(line, pat, i)
}

/// Whether `pat` stands in `line` at position `at`.
fn matches_at(line: &Vec<char>, pat: &Vec<char>, at: usize) -> (b: bool)
    requires
        at + pat@.len() <= line@.len(),
    ensures
        b == occurs_at(line@, pat@, at as int),
{
    let n: usize = line.len();
    let mut j: usize = 0;
    while j < pat.len()
        invariant
            j <= pat@.len(),
            at + pat@.len() <= line@.len() == n,
            forall|k: int| 0 <= k < j ==> line@[at + k] == pat@[k],
        decreases pat@.len() - j,
    {
        if line[at + j] != pat[j] {
            proof {
                let sub = line@.subrange(at as int, at + pat@.len());
                assert(sub[j as int] == line@[at + j]);
            }
            return false;
        }
        j += 1;
    }
    assert(line@.subrange(at as int, at + pat@.len()) =~= pat@);
    true
}

/// Literal substring search on characters.
pub fn chars_contain(line: &Vec<char>, pat: &Vec<char>) -> (b: bool)
    ensures
        b == contains(line@, pat@),
{
    if pat.len() > line.len() {
        return false;
    }
    if pat.len() == 0 {
        assert(occurs_at(line@, pat@, 0)) by {
            assert(line@.subrange(0, 0) =~= pat@);
        }
        return true;
    }
    let last: usize = line.len() - pat.len();
    let mut i: usize = 0;
    while i <= last
        invariant
            i <= last + 1,
            last == line@.len() - pat@.len(),
            last < line@.len() <= usize::MAX,
            forall|k: int| 0 <= k < i ==> !occurs_at(line@, pat@, k),
        decreases last + 1 - i,
    {
        if matches_at(line, pat, i) {
            return true;
        }
        i += 1;
    }
    false
}

/// Whether `line` contains `pat` as a literal substring.
pub fn line_contains(line: &str, pat: &str) -> (b: bool)
    ensures
        b == contains(line@, pat@),
{
    let l = chars_of(line);
    let p = chars_of(pat);
    chars_contain(&l, &p)
}

} // verus!
