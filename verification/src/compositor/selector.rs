//! Simple element selectors: `#id`, `.class`, or an element type.

use crate::text::{chars_of, chars_eq};
use vstd::prelude::*;

verus! {

/// Whether an element with identifier `id`, classes `classes` and type
/// `element_type` matches `selector`: `#x` matches the identifier `x`,
/// `.x` matches an element carrying the class `x`, and anything else is
/// compared with the element type.
pub open spec fn selects(
    selector: Seq<char>,
    id: Seq<char>,
    classes: Seq<Seq<char>>,
    element_type: Seq<char>,
) -> bool {
    if selector.len() > 0 && selector[0] == '#' {
        id == selector.skip(1)
    } else if selector.len() > 0 && selector[0] == '.' {
        classes.contains(selector.skip(1))
    } else {
        element_type == selector
    }
}

/// An `#x` selector matches exactly the elements whose identifier is `x`,
/// whatever their classes and type.
pub proof fn law_id_selector(
    x: Seq<char>,
    id: Seq<char>,
    classes: Seq<Seq<char>>,
    element_type: Seq<char>,
)
    ensures
        selects(seq!['#'] + x, id, classes, element_type) <==> id == x,
{
    assert((seq!['#'] + x)[0] == '#');
    assert((seq!['#'] + x).skip(1) =~= x);
}

/// A `.x` selector matches exactly the elements carrying the class `x`,
/// whatever their identifier and type.
pub proof fn law_class_selector(
    x: Seq<char>,
    id: Seq<char>,
    classes: Seq<Seq<char>>,
    element_type: Seq<char>,
)
    ensures
        selects(seq!['.'] + x, id, classes, element_type) <==> classes.contains(x),
{
    assert((seq!['.'] + x)[0] == '.');
    assert((seq!['.'] + x).skip(1) =~= x);
}

/// Any other selector matches exactly the elements of that type, whatever
/// their identifier and classes.
pub proof fn law_type_selector(
    selector: Seq<char>,
    id: Seq<char>,
    classes: Seq<Seq<char>>,
    element_type: Seq<char>,
)
    requires
        selector.len() == 0 || (selector[0] != '#' && selector[0] != '.'),
    ensures
        selects(selector, id, classes, element_type) <==> element_type == selector,
{
}

/// The characters of each string.
pub open spec fn views_of(v: Seq<String>) -> Seq<Seq<char>> {
    v.map_values(|s: String| s@)
}

/// Whether the selector `selector` matches an element with identifier
/// `id`, classes `classes` and type `element_type`.
pub fn selector_matches(selector: &str, id: &str, classes: &[String], element_type: &str) -> (r:
    bool)
    ensures
        r == selects(selector@, id@, views_of(classes@), element_type@),
{
    let sel = chars_of(selector);
    if sel.len() > 0 && (sel[0] == '#' || sel[0] == '.') {
        let mut rest: Vec<char> = Vec::new();
        let mut i: usize = 1;
        while i < sel.len()
            invariant
                1 <= i <= sel@.len(),
                rest@ == sel@.subrange(1, i as int),
            decreases sel@.len() - i,
        {
            rest.push(sel[i]);
            assert(sel@.subrange(1, i + 1) =~= sel@.subrange(1, i as int).push(sel@[i as int]));
            i = i + 1;
        }
        assert(rest@ =~= sel@.skip(1));
        if sel[0] == '#' {
            let idv = chars_of(id);
            chars_eq(&idv, &rest)
        } else {
            let mut k: usize = 0;
            while k < classes.len()
                invariant
                    k <= classes@.len(),
                    sel@ == selector@,
                    sel@.len() > 0 && sel@[0] == '.',
                    rest@ == sel@.skip(1),
                    forall|m: int| 0 <= m < k ==> classes@[m]@ != rest@,
                decreases classes@.len() - k,
            {
                let cv = chars_of(classes[k].as_str());
                if chars_eq(&cv, &rest) {
                    assert(views_of(classes@)[k as int] == rest@);
                    assert(views_of(classes@).contains(rest@));
                    return true;
                }
                k = k + 1;
            }
            assert forall|m: int| 0 <= m < views_of(classes@).len() implies views_of(
                classes@,
            )[m] != rest@ by {}
            false
        }
    } else {
        let ev = chars_of(element_type);
        chars_eq(&ev, &sel)
    }
}

} // verus!
