//! Reading the arguments of CSS functions such as `blur(10px)`.
//!
//! A CSS value is scanned for the first occurrence of a function's opening
//! (`blur(`), and its argument is the text up to the first `)` after it.
//! The numbers inside are read by the renderer, in floating point; here the
//! text each number is read from is cut out.

use crate::text::{chars_of, find_chars, find_seq, lemma_find_char, lemma_find_from_extend, lemma_find_from_occurs, string_of_range, trim, trim_end_matches, trim_end_matches_seq, trim_seq};
use vstd::prelude::*;

verus! {

/// The argument text of the first call of the function opened by `open`
/// in `v`: what stands between `open` and the first `)` after it.
pub open spec fn args_of(v: Seq<char>, open: Seq<char>) -> Option<Seq<char>> {
    match find_seq(v, open) {
        None => None,
        Some(i) => {
            let after = v.skip(i + open.len());
            match find_seq(after, seq![')']) {
                None => None,
                Some(j) => Some(after.take(j)),
            }
        },
    }
}

/// A number written with a unit: white space trimmed, then every trailing
/// repetition of the unit removed.
pub open spec fn number_with_unit(s: Seq<char>, unit: Seq<char>) -> Seq<char> {
    trim_end_matches_seq(trim_seq(s), unit)
}

/// The text before the first comma, and the text after it if there is one.
pub open spec fn comma_split(s: Seq<char>) -> (Seq<char>, Option<Seq<char>>) {
    match find_seq(s, seq![',']) {
        None => (s, None),
        Some(c) => (s.take(c), Some(s.skip(c + 1))),
    }
}

/// The characters of an optional string.
pub open spec fn opt_view(o: Option<String>) -> Option<Seq<char>> {
    match o {
        Some(s) => Some(s@),
        None => None,
    }
}

/// The characters `v[start..]`.
fn tail_of(v: &Vec<char>, start: usize) -> (t: Vec<char>)
    requires
        start <= v@.len(),
    ensures
        t@ == v@.skip(start as int),
{
    let mut t: Vec<char> = Vec::new();
    let mut i = start;
    while i < v.len()
        invariant
            start <= i <= v@.len(),
            t@ == v@.subrange(start as int, i as int),
        decreases v@.len() - i,
    {
        t.push(v[i]);
        assert(v@.subrange(start as int, i + 1) =~= v@.subrange(start as int, i as int).push(
            v@[i as int],
        ));
        i = i + 1;
    }
    assert(t@ =~= v@.skip(start as int));
    t
}

/// The argument text of the first call of the function opened by `open`
/// in `value`, when that call has a closing `)`.
pub fn function_args(value: &str, open: &str) -> (r: Option<String>)
    ensures
        opt_view(r) == args_of(value@, open@),
{
    let v = chars_of(value);
    let p = chars_of(open);
    let vlen = v.len();
    match find_chars(&v, &p) {
        None => None,
        Some(i) => {
            let after = tail_of(&v, i + p.len());
            let close = vec![')'];
            assert(close@ =~= seq![')']);
            match find_chars(&after, &close) {
                None => None,
                Some(j) => {
                    let s = string_of_range(&after, 0, j);
                    assert(after@.subrange(0, j as int) =~= after@.take(j as int));
                    Some(s)
                },
            }
        },
    }
}

/// The text before the first comma of `s`, and the text after it.
pub fn split_at_comma(s: &str) -> (r: (String, Option<String>))
    ensures
        r.0@ == comma_split(s@).0,
        opt_view(r.1) == comma_split(s@).1,
{
    let v = chars_of(s);
    let comma = vec![','];
    assert(comma@ =~= seq![',']);
    let vlen = v.len();
    match find_chars(&v, &comma) {
        None => {
            let all = string_of_range(&v, 0, v.len());
            assert(v@.subrange(0, v@.len() as int) =~= v@);
            (all, None)
        },
        Some(c) => {
            let head = string_of_range(&v, 0, c);
            assert(v@.subrange(0, c as int) =~= v@.take(c as int));
            let rest = string_of_range(&v, c + 1, v.len());
            assert(v@.subrange(c + 1, v@.len() as int) =~= v@.skip(c + 1));
            (head, Some(rest))
        },
    }
}

/// The number text with its unit removed.
pub fn strip_unit(s: &str, unit: &str) -> (r: String)
    ensures
        r@ == number_with_unit(s@, unit@),
{
    let t = trim(s);
    trim_end_matches(t.as_str(), unit)
}

/// The blur radius text of a `backdrop-filter` value: the argument of its
/// first `blur(...)`, trimmed, without its `px` unit, trimmed again.
pub open spec fn blur_text(v: Seq<char>) -> Option<Seq<char>> {
    match args_of(v, "blur("@) {
        Some(a) => Some(trim_seq(number_with_unit(a, "px"@))),
        None => None,
    }
}

/// The text the blur radius of a `backdrop-filter` value is read from.
pub fn blur_argument(value: &str) -> (r: Option<String>)
    ensures
        opt_view(r) == blur_text(value@),
{
    match function_args(value, "blur(") {
        Some(a) => {
            let n = strip_unit(a.as_str(), "px");
            Some(trim(n.as_str()))
        },
        None => None,
    }
}

/// The argument of the first call of a function ends at the first `)`
/// after its opening: what follows that `)` never changes it.
pub proof fn law_args_ignore_what_follows(v: Seq<char>, w: Seq<char>, open: Seq<char>)
    requires
        args_of(v, open) is Some,
    ensures
        args_of(v + w, open) == args_of(v, open),
{
    let i = find_seq(v, open)->0;
    lemma_find_from_extend(v, w, open, 0);
    lemma_find_from_occurs(v, open, 0);
    let after = v.skip(i + open.len());
    assert((v + w).skip(i + open.len()) =~= after + w);
    let j = find_seq(after, seq![')'])->0;
    lemma_find_from_extend(after, w, seq![')'], 0);
    lemma_find_from_occurs(after, seq![')'], 0);
    assert((after + w).take(j) =~= after.take(j));
}

/// The blur radius text is read from the first `blur(...)` call alone:
/// other filters after it (`blur(10px) saturate(180%)`) never change it.
pub proof fn law_blur_ignores_what_follows(v: Seq<char>, w: Seq<char>)
    requires
        blur_text(v) is Some,
    ensures
        blur_text(v + w) == blur_text(v),
{
    law_args_ignore_what_follows(v, w, "blur("@);
}

/// A value that opens with `blur(a)`, where `a` holds no `)`, has the blur
/// radius text `a`, trimmed and without its `px` unit, whatever follows.
pub proof fn law_blur_of_leading_call(a: Seq<char>, rest: Seq<char>)
    requires
        !a.contains(')'),
    ensures
        blur_text("blur("@ + a + seq![')'] + rest) == Some(trim_seq(number_with_unit(a, "px"@))),
{
    reveal_strlit("blur(");
    let open = "blur("@;
    let v = open + a + seq![')'] + rest;
    assert(v.subrange(0, open.len() as int) =~= open);
    assert(find_seq(v, open) == Some(0int));
    let after = v.skip(open.len() as int);
    assert(after =~= a + seq![')'] + rest);
    assert forall|m: int| 0 <= m < a.len() implies after[m] != ')' by {
        assert(after[m] == a[m]);
        if a[m] == ')' {
            assert(a.contains(')'));
        }
    }
    lemma_find_char(after, ')', 0, a.len() as int);
    assert(after.take(a.len() as int) =~= a);
}

/// The texts the scale factors of a `transform` value are read from, from
/// the argument of its first `scale(...)`: a single factor as written,
/// scaling both axes; or, when the argument has a comma, the first and
/// second comma-separated parts, each trimmed, scaling the horizontal and
/// the vertical axis.
pub open spec fn scale_texts(v: Seq<char>) -> Option<(Seq<char>, Option<Seq<char>>)> {
    match args_of(v, "scale("@) {
        Some(a) => match comma_split(a).1 {
            None => Some((a, None)),
            Some(rest) => Some((trim_seq(comma_split(a).0), Some(trim_seq(comma_split(rest).0)))),
        },
        None => None,
    }
}

/// The texts the horizontal and (when given) vertical scale factors of a
/// `transform` value are read from.
pub fn scale_arguments(value: &str) -> (r: Option<(String, Option<String>)>)
    ensures
        match r {
            Some((x, y)) => scale_texts(value@) == Some((x@, opt_view(y))),
            None => scale_texts(value@) is None,
        },
{
    match function_args(value, "scale(") {
        Some(a) => {
            let (first, rest) = split_at_comma(a.as_str());
            match rest {
                None => Some((first, None)),
                Some(r) => {
                    let (second, _) = split_at_comma(r.as_str());
                    Some((trim(first.as_str()), Some(trim(second.as_str()))))
                },
            }
        },
        None => None,
    }
}

/// The texts the offsets of a `transform` value are read from: the first
/// and (when there is a comma) second comma-separated parts of the
/// argument of its first `translate(...)`, each without its `px` unit.
pub open spec fn translate_texts(v: Seq<char>) -> Option<(Seq<char>, Option<Seq<char>>)> {
    match args_of(v, "translate("@) {
        Some(a) => {
            let x = number_with_unit(comma_split(a).0, "px"@);
            let y = match comma_split(a).1 {
                Some(rest) => Some(number_with_unit(comma_split(rest).0, "px"@)),
                None => None,
            };
            Some((x, y))
        },
        None => None,
    }
}

/// The texts the horizontal and vertical offsets of a `transform` value are
/// read from.
pub fn translate_arguments(value: &str) -> (r: Option<(String, Option<String>)>)
    ensures
        match r {
            Some((x, y)) => translate_texts(value@) == Some((x@, opt_view(y))),
            None => translate_texts(value@) is None,
        },
{
    match function_args(value, "translate(") {
        Some(a) => {
            let (first, rest) = split_at_comma(a.as_str());
            let x = strip_unit(first.as_str(), "px");
            let y = match rest {
                Some(r) => {
                    let (second, _) = split_at_comma(r.as_str());
                    Some(strip_unit(second.as_str(), "px"))
                },
                None => None,
            };
            Some((x, y))
        },
        None => None,
    }
}

/// The text the angle of a `transform` value is read from: the argument of
/// its first `rotate(...)`, without its `deg` unit.
pub fn rotate_argument(value: &str) -> (r: Option<String>)
    ensures
        opt_view(r) == (match args_of(value@, "rotate("@) {
            Some(a) => Some(number_with_unit(a, "deg"@)),
            None => None,
        }),
{
    match function_args(value, "rotate(") {
        Some(a) => Some(strip_unit(a.as_str(), "deg")),
        None => None,
    }
}

/// The text the brightness of a colour-adjust value is read from: the
/// argument of its first `brightness(...)`, as written.
pub fn brightness_argument(value: &str) -> (r: Option<String>)
    ensures
        opt_view(r) == args_of(value@, "brightness("@),
{
    function_args(value, "brightness(")
}

/// The text the saturation of a colour-adjust value is read from: the
/// argument of its first `saturate(...)`, as written.
pub fn saturate_argument(value: &str) -> (r: Option<String>)
    ensures
        opt_view(r) == args_of(value@, "saturate("@),
{
    function_args(value, "saturate(")
}

/// The text the contrast of a colour-adjust value is read from: the
/// argument of its first `contrast(...)`, as written.
pub fn contrast_argument(value: &str) -> (r: Option<String>)
    ensures
        opt_view(r) == args_of(value@, "contrast("@),
{
    function_args(value, "contrast(")
}

} // verus!
