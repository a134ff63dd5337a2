//! Character-level text helpers.
//!
//! Every helper here works on the characters of a string (its view, a
//! `Seq<char>`) and is specified by a short spec function of its own.

use vstd::prelude::*;

verus! {

/// Appends one character to a `String`.
#[verifier::external_body]
fn push_char(s: &mut String, c: char)
    ensures
        final(s)@ == old(s)@.push(c),
{
    s.push(c);
}

/// The characters of `s`, in order.
pub fn chars_of(s: &str) -> (v: Vec<char>)
    ensures
        v@ == s@,
{
    let mut v: Vec<char> = Vec::new();
    for c in it: s.chars()
        invariant
            v@ == it.seq().take(it.index() as int),
    {
        v.push(c);
    }
    v
}

/// The string made of the characters `v[start..end]`.
pub fn string_of_range(v: &Vec<char>, start: usize, end: usize) -> (s: String)
    requires
        start <= end <= v@.len(),
    ensures
        s@ == v@.subrange(start as int, end as int),
{
    let mut s = String::new();
    let mut i = start;
    while i < end
        invariant
            start <= i <= end <= v@.len(),
            s@ == v@.subrange(start as int, i as int),
        decreases end - i,
    {
        push_char(&mut s, v[i]);
        assert(v@.subrange(start as int, i + 1) =~= v@.subrange(start as int, i as int).push(
            v@[i as int],
        ));
        i = i + 1;
    }
    s
}

/// Whether two character vectors hold the same characters.
pub fn chars_eq(a: &Vec<char>, b: &Vec<char>) -> (r: bool)
    ensures
        r == (a@ == b@),
{
    if a.len() != b.len() {
        return false;
    }
    let mut i: usize = 0;
    while i < a.len()
        invariant
            a@.len() == b@.len(),
            i <= a@.len(),
            forall|k: int| 0 <= k < i ==> a@[k] == b@[k],
        decreases a@.len() - i,
    {
        if a[i] != b[i] {
            return false;
        }
        i = i + 1;
    }
    assert(a@ =~= b@);
    true
}

/// Whether two strings hold the same characters.
pub fn str_eq(a: &str, b: &str) -> (r: bool)
    ensures
        r == (a@ == b@),
{
    let va = chars_of(a);
    let vb = chars_of(b);
    chars_eq(&va, &vb)
}

/// The Unicode `White_Space` property, which `char::is_whitespace` tests.
pub open spec fn is_white_space(c: char) -> bool {
    let u = c as u32;
    ||| 0x09 <= u <= 0x0d
    ||| u == 0x20
    ||| u == 0x85
    ||| u == 0xa0
    ||| u == 0x1680
    ||| 0x2000 <= u <= 0x200a
    ||| u == 0x2028
    ||| u == 0x2029
    ||| u == 0x202f
    ||| u == 0x205f
    ||| u == 0x3000
}

/// Whether `c` is white space in the sense of `char::is_whitespace`.
pub fn is_whitespace(c: char) -> (b: bool)
    ensures
        b == is_white_space(c),
{
    let u = c as u32;
    (0x09 <= u && u <= 0x0d) || u == 0x20 || u == 0x85 || u == 0xa0 || u == 0x1680 || (0x2000
        <= u && u <= 0x200a) || u == 0x2028 || u == 0x2029 || u == 0x202f || u == 0x205f || u
        == 0x3000
}

/// `s` without its leading white space.
pub open spec fn trim_start_seq(s: Seq<char>) -> Seq<char>
    decreases s.len(),
{
    if s.len() > 0 && is_white_space(s[0]) {
        trim_start_seq(s.drop_first())
    } else {
        s
    }
}

/// `s` without its trailing white space.
pub open spec fn trim_end_seq(s: Seq<char>) -> Seq<char>
    decreases s.len(),
{
    if s.len() > 0 && is_white_space(s.last()) {
        trim_end_seq(s.drop_last())
    } else {
        s
    }
}

/// `s` without leading and trailing white space, as `str::trim` returns it.
pub open spec fn trim_seq(s: Seq<char>) -> Seq<char> {
    trim_end_seq(trim_start_seq(s))
}

/// Index of the first character of `v` that is not white space (or its length).
fn first_non_white(v: &Vec<char>) -> (i: usize)
    ensures
        i <= v@.len(),
        trim_start_seq(v@) == v@.subrange(i as int, v@.len() as int),
{
    let mut i: usize = 0;
    assert(v@.subrange(0, v@.len() as int) =~= v@);
    while i < v.len() && is_whitespace(v[i])
        invariant
            i <= v@.len(),
            trim_start_seq(v@) == trim_start_seq(v@.subrange(i as int, v@.len() as int)),
        decreases v@.len() - i,
    {
        assert(v@.subrange(i as int, v@.len() as int).drop_first() =~= v@.subrange(
            i + 1,
            v@.len() as int,
        ));
        i = i + 1;
    }
    i
}

/// Strips trailing white space from the characters `v[start..]`; returns the end.
fn last_non_white(v: &Vec<char>, start: usize) -> (j: usize)
    requires
        start <= v@.len(),
    ensures
        start <= j <= v@.len(),
        trim_end_seq(v@.subrange(start as int, v@.len() as int)) == v@.subrange(
            start as int,
            j as int,
        ),
{
    let mut j: usize = v.len();
    while j > start && is_whitespace(v[j - 1])
        invariant
            start <= j <= v@.len(),
            trim_end_seq(v@.subrange(start as int, v@.len() as int)) == trim_end_seq(
                v@.subrange(start as int, j as int),
            ),
        decreases j,
    {
        assert(v@.subrange(start as int, j as int).drop_last() =~= v@.subrange(
            start as int,
            j - 1,
        ));
        j = j - 1;
    }
    j
}

/// `s` without leading and trailing white space.
pub fn trim(s: &str) -> (r: String)
    ensures
        r@ == trim_seq(s@),
{
    let v = chars_of(s);
    let i = first_non_white(&v);
    let j = last_non_white(&v, i);
    string_of_range(&v, i, j)
}

/// Whether `p` occurs in `v` starting at index `i`.
pub open spec fn occurs_at(v: Seq<char>, p: Seq<char>, i: int) -> bool {
    0 <= i && i + p.len() <= v.len() && v.subrange(i, i + p.len()) == p
}

/// The first index at or after `i` where `p` occurs in `v`.
pub open spec fn find_from(v: Seq<char>, p: Seq<char>, i: int) -> Option<int>
    decreases v.len() - i,
{
    if i < 0 || i + p.len() > v.len() {
        None
    } else if v.subrange(i, i + p.len()) == p {
        Some(i)
    } else if i >= v.len() {
        None
    } else {
        find_from(v, p, i + 1)
    }
}

/// The first index where `p` occurs in `v`, as `str::find` reports it
/// (counted in characters).
pub open spec fn find_seq(v: Seq<char>, p: Seq<char>) -> Option<int> {
    find_from(v, p, 0)
}

/// What `find_from` reports is an occurrence of `p`, at or after `i`.
pub proof fn lemma_find_from_occurs(v: Seq<char>, p: Seq<char>, i: int)
    ensures
        find_from(v, p, i) matches Some(k) ==> i <= k && k + p.len() <= v.len()
            && v.subrange(k, k + p.len()) == p,
    decreases v.len() - i,
{
    if i < 0 || i + p.len() > v.len() {
    } else if v.subrange(i, i + p.len()) == p {
    } else if i >= v.len() {
    } else {
        lemma_find_from_occurs(v, p, i + 1);
    }
}

/// An occurrence found in `v` is still the first one found once more
/// characters are appended to `v`.
pub proof fn lemma_find_from_extend(v: Seq<char>, w: Seq<char>, p: Seq<char>, i: int)
    requires
        find_from(v, p, i) is Some,
    ensures
        find_from(v + w, p, i) == find_from(v, p, i),
    decreases v.len() - i,
{
    assert((v + w).subrange(i, i + p.len()) =~= v.subrange(i, i + p.len()));
    if v.subrange(i, i + p.len()) != p {
        lemma_find_from_extend(v, w, p, i + 1);
    }
}

/// The first occurrence of the character `c` at or after `i` is at `k` when
/// `c` stands at `k` and nowhere between `i` and `k`.
pub proof fn lemma_find_char(x: Seq<char>, c: char, i: int, k: int)
    requires
        0 <= i <= k < x.len(),
        x[k] == c,
        forall|m: int| i <= m < k ==> x[m] != c,
    ensures
        find_from(x, seq![c], i) == Some(k),
    decreases k - i,
{
    assert(x.subrange(i, i + 1) =~= seq![x[i]]);
    if i < k {
        assert(x.subrange(i, i + 1)[0] != seq![c][0]);
        lemma_find_char(x, c, i + 1, k);
    }
}

/// Whether the characters of `p` stand in `v` at index `i`.
fn occurs_at_exec(v: &Vec<char>, p: &Vec<char>, i: usize) -> (b: bool)
    requires
        i + p@.len() <= v@.len(),
    ensures
        b == (v@.subrange(i as int, i + p@.len()) == p@),
{
    let mut k: usize = 0;
    let vlen = v.len();
    while k < p.len()
        invariant
            i + p@.len() <= v@.len(),
            vlen == v@.len(),
            k <= p@.len(),
            forall|m: int| 0 <= m < k ==> v@[i + m] == p@[m],
        decreases p@.len() - k,
    {
        if v[i + k] != p[k] {
            assert(v@.subrange(i as int, i + p@.len())[k as int] != p@[k as int]);
            return false;
        }
        k = k + 1;
    }
    assert(v@.subrange(i as int, i + p@.len()) =~= p@);
    true
}

/// The first index where `p` occurs in `v`.
pub fn find_chars(v: &Vec<char>, p: &Vec<char>) -> (r: Option<usize>)
    ensures
        match r {
            Some(i) => find_seq(v@, p@) == Some(i as int) && i + p@.len() <= v@.len(),
            None => find_seq(v@, p@) is None,
        },
{
    proof {
        lemma_find_from_occurs(v@, p@, 0);
    }
    if p.len() > v.len() {
        return None;
    }
    let last = v.len() - p.len();
    let mut i: usize = 0;
    loop
        invariant
            last + p@.len() == v@.len(),
            i <= last,
            find_seq(v@, p@) == find_from(v@, p@, i as int),
        decreases last - i,
    {
        if occurs_at_exec(v, p, i) {
            return Some(i);
        }
        if i == last {
            assert(find_from(v@, p@, i + 1) is None);
            return None;
        }
        i = i + 1;
    }
}

/// `s` with every trailing repetition of `p` removed, as
/// `str::trim_end_matches` returns it for a string pattern.
pub open spec fn trim_end_matches_seq(s: Seq<char>, p: Seq<char>) -> Seq<char>
    decreases s.len(),
{
    if p.len() > 0 && p.len() <= s.len() && s.subrange(s.len() - p.len(), s.len() as int) == p {
        trim_end_matches_seq(s.subrange(0, s.len() - p.len()), p)
    } else {
        s
    }
}

/// `s` with every trailing repetition of `p` removed.
pub fn trim_end_matches(s: &str, p: &str) -> (r: String)
    ensures
        r@ == trim_end_matches_seq(s@, p@),
{
    let v = chars_of(s);
    let pv = chars_of(p);
    let mut n: usize = v.len();
    assert(v@.subrange(0, v@.len() as int) =~= v@);
    if pv.len() > 0 {
        while pv.len() <= n && occurs_at_exec(&v, &pv, n - pv.len())
            invariant
                pv@.len() > 0,
                n <= v@.len(),
                trim_end_matches_seq(v@, pv@) == trim_end_matches_seq(
                    v@.subrange(0, n as int),
                    pv@,
                ),
            decreases n,
        {
            assert(v@.subrange(0, n as int).subrange(n - pv@.len(), n as int) =~= v@.subrange(
                n - pv@.len(),
                n as int,
            ));
            assert(v@.subrange(0, n as int).subrange(0, n - pv@.len()) =~= v@.subrange(
                0,
                n - pv@.len(),
            ));
            n = n - pv.len();
        }
        assert(pv@.len() <= n ==> v@.subrange(0, n as int).subrange(n - pv@.len(), n as int)
            =~= v@.subrange(n - pv@.len(), n as int));
    }
    assert(v@.subrange(0, v@.len() as int) =~= v@);
    string_of_range(&v, 0, n)
}

} // verus!
