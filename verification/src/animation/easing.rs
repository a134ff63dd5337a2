//! Easing curves: their names and how a name is read.
//!
//! The curves themselves map a progress value to an eased one in floating
//! point and are evaluated by the renderer; this module holds the set of
//! curves and the parsing of their names.

use crate::text::{chars_of, chars_eq};
use vstd::prelude::*;

verus! {

/// Easing function type.
#[derive(Debug, Clone, Copy, PartialEq, Eq, Structural)]
pub enum EasingFunction {
    /// Linear interpolation (no easing).
    Linear,
    /// Ease (default CSS ease).
    Ease,
    /// Ease-in (slow start).
    EaseIn,
    /// Ease-out (slow end).
    EaseOut,
    /// Ease-in-out (slow start and end).
    EaseInOut,
    /// Quadratic ease-in.
    QuadIn,
    /// Quadratic ease-out.
    QuadOut,
    /// Quadratic ease-in-out.
    QuadInOut,
    /// Cubic ease-in.
    CubicIn,
    /// Cubic ease-out.
    CubicOut,
    /// Cubic ease-in-out.
    CubicInOut,
    /// Quartic ease-in.
    QuartIn,
    /// Quartic ease-out.
    QuartOut,
    /// Quartic ease-in-out.
    QuartInOut,
    /// Quintic ease-in.
    QuintIn,
    /// Quintic ease-out.
    QuintOut,
    /// Quintic ease-in-out.
    QuintInOut,
    /// Sine ease-in.
    SineIn,
    /// Sine ease-out.
    SineOut,
    /// Sine ease-in-out.
    SineInOut,
    /// Exponential ease-in.
    ExpoIn,
    /// Exponential ease-out.
    ExpoOut,
    /// Exponential ease-in-out.
    ExpoInOut,
    /// Circular ease-in.
    CircIn,
    /// Circular ease-out.
    CircOut,
    /// Circular ease-in-out.
    CircInOut,
    /// Elastic ease-in.
    ElasticIn,
    /// Elastic ease-out.
    ElasticOut,
    /// Elastic ease-in-out.
    ElasticInOut,
    /// Back ease-in.
    BackIn,
    /// Back ease-out.
    BackOut,
    /// Back ease-in-out.
    BackInOut,
    /// Bounce ease-in.
    BounceIn,
    /// Bounce ease-out.
    BounceOut,
    /// Bounce ease-in-out.
    BounceInOut,
}

impl Default for EasingFunction {
    fn default() -> (e: Self)
        ensures
            e == EasingFunction::Ease,
    {
        EasingFunction::Ease
    }
}

/// Names the string that `str::to_lowercase` returns for the characters `s`.
pub uninterp spec fn lowercase(s: Seq<char>) -> Seq<char>;

/// Whether every character of `s` is ASCII.
pub open spec fn all_ascii(s: Seq<char>) -> bool {
    forall|i: int| 0 <= i < s.len() ==> (#[trigger] s[i] as u32) < 128
}

/// An ASCII capital letter lowered; every other character kept.
pub open spec fn ascii_lower(c: char) -> char {
    if 65 <= (c as u32) <= 90 {
        ((c as u32) + 32) as char
    } else {
        c
    }
}

/// Calls `str::to_lowercase`. The result is a function of the characters of
/// `s` (named by `lowercase`); on an all-ASCII string it lowers the capital
/// letters `A`..`Z` and keeps every other character, as the Unicode
/// lowercase mapping does for ASCII. What it does to other characters is
/// left unsaid.
#[verifier::external_body]
fn to_lowercase(s: &str) -> (r: String)
    ensures
        r@ == lowercase(s@),
        all_ascii(s@) ==> r@ == s@.map_values(|c: char| ascii_lower(c)),
{
    s.to_lowercase()
}

/// The easing curve a lower-case name denotes: the CSS-style hyphenated
/// name, or the same name without hyphens.
pub open spec fn easing_named(n: Seq<char>) -> Option<EasingFunction> {
    if n == "linear"@ {
        Some(EasingFunction::Linear)
    } else if n == "ease"@ {
        Some(EasingFunction::Ease)
    } else if n == "ease-in"@ || n == "easein"@ {
        Some(EasingFunction::EaseIn)
    } else if n == "ease-out"@ || n == "easeout"@ {
        Some(EasingFunction::EaseOut)
    } else if n == "ease-in-out"@ || n == "easeinout"@ {
        Some(EasingFunction::EaseInOut)
    } else if n == "quad-in"@ || n == "quadin"@ {
        Some(EasingFunction::QuadIn)
    } else if n == "quad-out"@ || n == "quadout"@ {
        Some(EasingFunction::QuadOut)
    } else if n == "quad-in-out"@ || n == "quadinout"@ {
        Some(EasingFunction::QuadInOut)
    } else if n == "cubic-in"@ || n == "cubicin"@ {
        Some(EasingFunction::CubicIn)
    } else if n == "cubic-out"@ || n == "cubicout"@ {
        Some(EasingFunction::CubicOut)
    } else if n == "cubic-in-out"@ || n == "cubicinout"@ {
        Some(EasingFunction::CubicInOut)
    } else if n == "quart-in"@ || n == "quartin"@ {
        Some(EasingFunction::QuartIn)
    } else if n == "quart-out"@ || n == "quartout"@ {
        Some(EasingFunction::QuartOut)
    } else if n == "quart-in-out"@ || n == "quartinout"@ {
        Some(EasingFunction::QuartInOut)
    } else if n == "quint-in"@ || n == "quintin"@ {
        Some(EasingFunction::QuintIn)
    } else if n == "quint-out"@ || n == "quintout"@ {
        Some(EasingFunction::QuintOut)
    } else if n == "quint-in-out"@ || n == "quintinout"@ {
        Some(EasingFunction::QuintInOut)
    } else if n == "sine-in"@ || n == "sinein"@ {
        Some(EasingFunction::SineIn)
    } else if n == "sine-out"@ || n == "sineout"@ {
        Some(EasingFunction::SineOut)
    } else if n == "sine-in-out"@ || n == "sineinout"@ {
        Some(EasingFunction::SineInOut)
    } else if n == "expo-in"@ || n == "expoin"@ {
        Some(EasingFunction::ExpoIn)
    } else if n == "expo-out"@ || n == "expoout"@ {
        Some(EasingFunction::ExpoOut)
    } else if n == "expo-in-out"@ || n == "expoinout"@ {
        Some(EasingFunction::ExpoInOut)
    } else if n == "circ-in"@ || n == "circin"@ {
        Some(EasingFunction::CircIn)
    } else if n == "circ-out"@ || n == "circout"@ {
        Some(EasingFunction::CircOut)
    } else if n == "circ-in-out"@ || n == "circinout"@ {
        Some(EasingFunction::CircInOut)
    } else if n == "elastic-in"@ || n == "elasticin"@ {
        Some(EasingFunction::ElasticIn)
    } else if n == "elastic-out"@ || n == "elasticout"@ {
        Some(EasingFunction::ElasticOut)
    } else if n == "elastic-in-out"@ || n == "elasticinout"@ {
        Some(EasingFunction::ElasticInOut)
    } else if n == "back-in"@ || n == "backin"@ {
        Some(EasingFunction::BackIn)
    } else if n == "back-out"@ || n == "backout"@ {
        Some(EasingFunction::BackOut)
    } else if n == "back-in-out"@ || n == "backinout"@ {
        Some(EasingFunction::BackInOut)
    } else if n == "bounce-in"@ || n == "bouncein"@ {
        Some(EasingFunction::BounceIn)
    } else if n == "bounce-out"@ || n == "bounceout"@ {
        Some(EasingFunction::BounceOut)
    } else if n == "bounce-in-out"@ || n == "bounceinout"@ {
        Some(EasingFunction::BounceInOut)
    } else {
        None
    }
}

/// Whether the characters `v` spell `a` or `b`.
fn spells(v: &Vec<char>, a: &str, b: &str) -> (r: bool)
    ensures
        r == (v@ == a@ || v@ == b@),
{
    let va = chars_of(a);
    if chars_eq(v, &va) {
        return true;
    }
    let vb = chars_of(b);
    chars_eq(v, &vb)
}

impl EasingFunction {
    /// The easing curve a name denotes, the name being already in lower
    /// case; `None` for an unknown name.
    pub fn from_lowercase_name(name: &str) -> (r: Option<Self>)
        ensures
            r == easing_named(name@),
    {
        let v = chars_of(name);
        if spells(&v, "linear", "linear") {
            return Some(EasingFunction::Linear);
        }
        if spells(&v, "ease", "ease") {
            return Some(EasingFunction::Ease);
        }
        if spells(&v, "ease-in", "easein") {
            return Some(EasingFunction::EaseIn);
        }
        if spells(&v, "ease-out", "easeout") {
            return Some(EasingFunction::EaseOut);
        }
        if spells(&v, "ease-in-out", "easeinout") {
            return Some(EasingFunction::EaseInOut);
        }
        if spells(&v, "quad-in", "quadin") {
            return Some(EasingFunction::QuadIn);
        }
        if spells(&v, "quad-out", "quadout") {
            return Some(EasingFunction::QuadOut);
        }
        if spells(&v, "quad-in-out", "quadinout") {
            return Some(EasingFunction::QuadInOut);
        }
        if spells(&v, "cubic-in", "cubicin") {
            return Some(EasingFunction::CubicIn);
        }
        if spells(&v, "cubic-out", "cubicout") {
            return Some(EasingFunction::CubicOut);
        }
        if spells(&v, "cubic-in-out", "cubicinout") {
            return Some(EasingFunction::CubicInOut);
        }
        if spells(&v, "quart-in", "quartin") {
            return Some(EasingFunction::QuartIn);
        }
        if spells(&v, "quart-out", "quartout") {
            return Some(EasingFunction::QuartOut);
        }
        if spells(&v, "quart-in-out", "quartinout") {
            return Some(EasingFunction::QuartInOut);
        }
        if spells(&v, "quint-in", "quintin") {
            return Some(EasingFunction::QuintIn);
        }
        if spells(&v, "quint-out", "quintout") {
            return Some(EasingFunction::QuintOut);
        }
        if spells(&v, "quint-in-out", "quintinout") {
            return Some(EasingFunction::QuintInOut);
        }
        if spells(&v, "sine-in", "sinein") {
            return Some(EasingFunction::SineIn);
        }
        if spells(&v, "sine-out", "sineout") {
            return Some(EasingFunction::SineOut);
        }
        if spells(&v, "sine-in-out", "sineinout") {
            return Some(EasingFunction::SineInOut);
        }
        if spells(&v, "expo-in", "expoin") {
            return Some(EasingFunction::ExpoIn);
        }
        if spells(&v, "expo-out", "expoout") {
            return Some(EasingFunction::ExpoOut);
        }
        if spells(&v, "expo-in-out", "expoinout") {
            return Some(EasingFunction::ExpoInOut);
        }
        if spells(&v, "circ-in", "circin") {
            return Some(EasingFunction::CircIn);
        }
        if spells(&v, "circ-out", "circout") {
            return Some(EasingFunction::CircOut);
        }
        if spells(&v, "circ-in-out", "circinout") {
            return Some(EasingFunction::CircInOut);
        }
        if spells(&v, "elastic-in", "elasticin") {
            return Some(EasingFunction::ElasticIn);
        }
        if spells(&v, "elastic-out", "elasticout") {
            return Some(EasingFunction::ElasticOut);
        }
        if spells(&v, "elastic-in-out", "elasticinout") {
            return Some(EasingFunction::ElasticInOut);
        }
        if spells(&v, "back-in", "backin") {
            return Some(EasingFunction::BackIn);
        }
        if spells(&v, "back-out", "backout") {
            return Some(EasingFunction::BackOut);
        }
        if spells(&v, "back-in-out", "backinout") {
            return Some(EasingFunction::BackInOut);
        }
        if spells(&v, "bounce-in", "bouncein") {
            return Some(EasingFunction::BounceIn);
        }
        if spells(&v, "bounce-out", "bounceout") {
            return Some(EasingFunction::BounceOut);
        }
        if spells(&v, "bounce-in-out", "bounceinout") {
            return Some(EasingFunction::BounceInOut);
        }
        None
    }

    /// Parse an easing function from its name, in any letter case (for an
    /// ASCII name: with its capitals lowered).
    pub fn from_str(s: &str) -> (r: Option<Self>)
        ensures
            r == easing_named(lowercase(s@)),
            all_ascii(s@) ==> r == easing_named(s@.map_values(|c: char| ascii_lower(c))),
    {
        let lower = to_lowercase(s);
        Self::from_lowercase_name(lower.as_str())
    }
}

/// The hyphenated name of a curve (`ease-in-out`, `bounce-out`, ...).
pub open spec fn hyphen_name(e: EasingFunction) -> Seq<char> {
    match e {
        EasingFunction::Linear => "linear"@,
        EasingFunction::Ease => "ease"@,
        EasingFunction::EaseIn => "ease-in"@,
        EasingFunction::EaseOut => "ease-out"@,
        EasingFunction::EaseInOut => "ease-in-out"@,
        EasingFunction::QuadIn => "quad-in"@,
        EasingFunction::QuadOut => "quad-out"@,
        EasingFunction::QuadInOut => "quad-in-out"@,
        EasingFunction::CubicIn => "cubic-in"@,
        EasingFunction::CubicOut => "cubic-out"@,
        EasingFunction::CubicInOut => "cubic-in-out"@,
        EasingFunction::QuartIn => "quart-in"@,
        EasingFunction::QuartOut => "quart-out"@,
        EasingFunction::QuartInOut => "quart-in-out"@,
        EasingFunction::QuintIn => "quint-in"@,
        EasingFunction::QuintOut => "quint-out"@,
        EasingFunction::QuintInOut => "quint-in-out"@,
        EasingFunction::SineIn => "sine-in"@,
        EasingFunction::SineOut => "sine-out"@,
        EasingFunction::SineInOut => "sine-in-out"@,
        EasingFunction::ExpoIn => "expo-in"@,
        EasingFunction::ExpoOut => "expo-out"@,
        EasingFunction::ExpoInOut => "expo-in-out"@,
        EasingFunction::CircIn => "circ-in"@,
        EasingFunction::CircOut => "circ-out"@,
        EasingFunction::CircInOut => "circ-in-out"@,
        EasingFunction::ElasticIn => "elastic-in"@,
        EasingFunction::ElasticOut => "elastic-out"@,
        EasingFunction::ElasticInOut => "elastic-in-out"@,
        EasingFunction::BackIn => "back-in"@,
        EasingFunction::BackOut => "back-out"@,
        EasingFunction::BackInOut => "back-in-out"@,
        EasingFunction::BounceIn => "bounce-in"@,
        EasingFunction::BounceOut => "bounce-out"@,
        EasingFunction::BounceInOut => "bounce-in-out"@,
    }
}

/// The name of a curve without hyphens (`easeinout`, `bounceout`, ...).
pub open spec fn compact_name(e: EasingFunction) -> Seq<char> {
    match e {
        EasingFunction::Linear => "linear"@,
        EasingFunction::Ease => "ease"@,
        EasingFunction::EaseIn => "easein"@,
        EasingFunction::EaseOut => "easeout"@,
        EasingFunction::EaseInOut => "easeinout"@,
        EasingFunction::QuadIn => "quadin"@,
        EasingFunction::QuadOut => "quadout"@,
        EasingFunction::QuadInOut => "quadinout"@,
        EasingFunction::CubicIn => "cubicin"@,
        EasingFunction::CubicOut => "cubicout"@,
        EasingFunction::CubicInOut => "cubicinout"@,
        EasingFunction::QuartIn => "quartin"@,
        EasingFunction::QuartOut => "quartout"@,
        EasingFunction::QuartInOut => "quartinout"@,
        EasingFunction::QuintIn => "quintin"@,
        EasingFunction::QuintOut => "quintout"@,
        EasingFunction::QuintInOut => "quintinout"@,
        EasingFunction::SineIn => "sinein"@,
        EasingFunction::SineOut => "sineout"@,
        EasingFunction::SineInOut => "sineinout"@,
        EasingFunction::ExpoIn => "expoin"@,
        EasingFunction::ExpoOut => "expoout"@,
        EasingFunction::ExpoInOut => "expoinout"@,
        EasingFunction::CircIn => "circin"@,
        EasingFunction::CircOut => "circout"@,
        EasingFunction::CircInOut => "circinout"@,
        EasingFunction::ElasticIn => "elasticin"@,
        EasingFunction::ElasticOut => "elasticout"@,
        EasingFunction::ElasticInOut => "elasticinout"@,
        EasingFunction::BackIn => "backin"@,
        EasingFunction::BackOut => "backout"@,
        EasingFunction::BackInOut => "backinout"@,
        EasingFunction::BounceIn => "bouncein"@,
        EasingFunction::BounceOut => "bounceout"@,
        EasingFunction::BounceInOut => "bounceinout"@,
    }
}

/// Every curve is reached from both of its names, and a name gives a
/// curve only when it is one of that curve's two names.
pub proof fn law_curve_names(e: EasingFunction, n: Seq<char>)
    ensures
        easing_named(hyphen_name(e)) == Some(e),
        easing_named(compact_name(e)) == Some(e),
        easing_named(n) == Some(e) <==> (n == hyphen_name(e) || n == compact_name(e)),
{
    reveal_strlit("linear");
    assert("linear"@ =~= seq!['l', 'i', 'n', 'e', 'a', 'r']);
    reveal_strlit("ease");
    assert("ease"@ =~= seq!['e', 'a', 's', 'e']);
    reveal_strlit("ease-in");
    assert("ease-in"@ =~= seq!['e', 'a', 's', 'e', '-', 'i', 'n']);
    reveal_strlit("easein");
    assert("easein"@ =~= seq!['e', 'a', 's', 'e', 'i', 'n']);
    reveal_strlit("ease-out");
    assert("ease-out"@ =~= seq!['e', 'a', 's', 'e', '-', 'o', 'u', 't']);
    reveal_strlit("easeout");
    assert("easeout"@ =~= seq!['e', 'a', 's', 'e', 'o', 'u', 't']);
    reveal_strlit("ease-in-out");
    assert("ease-in-out"@ =~= seq!['e', 'a', 's', 'e', '-', 'i', 'n', '-', 'o', 'u', 't']);
    reveal_strlit("easeinout");
    assert("easeinout"@ =~= seq!['e', 'a', 's', 'e', 'i', 'n', 'o', 'u', 't']);
    reveal_strlit("quad-in");
    assert("quad-in"@ =~= seq!['q', 'u', 'a', 'd', '-', 'i', 'n']);
    reveal_strlit("quadin");
    assert("quadin"@ =~= seq!['q', 'u', 'a', 'd', 'i', 'n']);
    reveal_strlit("quad-out");
    assert("quad-out"@ =~= seq!['q', 'u', 'a', 'd', '-', 'o', 'u', 't']);
    reveal_strlit("quadout");
    assert("quadout"@ =~= seq!['q', 'u', 'a', 'd', 'o', 'u', 't']);
    reveal_strlit("quad-in-out");
    assert("quad-in-out"@ =~= seq!['q', 'u', 'a', 'd', '-', 'i', 'n', '-', 'o', 'u', 't']);
    reveal_strlit("quadinout");
    assert("quadinout"@ =~= seq!['q', 'u', 'a', 'd', 'i', 'n', 'o', 'u', 't']);
    reveal_strlit("cubic-in");
    assert("cubic-in"@ =~= seq!['c', 'u', 'b', 'i', 'c', '-', 'i', 'n']);
    reveal_strlit("cubicin");
    assert("cubicin"@ =~= seq!['c', 'u', 'b', 'i', 'c', 'i', 'n']);
    reveal_strlit("cubic-out");
    assert("cubic-out"@ =~= seq!['c', 'u', 'b', 'i', 'c', '-', 'o', 'u', 't']);
    reveal_strlit("cubicout");
    assert("cubicout"@ =~= seq!['c', 'u', 'b', 'i', 'c', 'o', 'u', 't']);
    reveal_strlit("cubic-in-out");
    assert("cubic-in-out"@ =~= seq!['c', 'u', 'b', 'i', 'c', '-', 'i', 'n', '-', 'o', 'u', 't']);
    reveal_strlit("cubicinout");
    assert("cubicinout"@ =~= seq!['c', 'u', 'b', 'i', 'c', 'i', 'n', 'o', 'u', 't']);
    reveal_strlit("quart-in");
    assert("quart-in"@ =~= seq!['q', 'u', 'a', 'r', 't', '-', 'i', 'n']);
    reveal_strlit("quartin");
    assert("quartin"@ =~= seq!['q', 'u', 'a', 'r', 't', 'i', 'n']);
    reveal_strlit("quart-out");
    assert("quart-out"@ =~= seq!['q', 'u', 'a', 'r', 't', '-', 'o', 'u', 't']);
    reveal_strlit("quartout");
    assert("quartout"@ =~= seq!['q', 'u', 'a', 'r', 't', 'o', 'u', 't']);
    reveal_strlit("quart-in-out");
    assert("quart-in-out"@ =~= seq!['q', 'u', 'a', 'r', 't', '-', 'i', 'n', '-', 'o', 'u', 't']);
    reveal_strlit("quartinout");
    assert("quartinout"@ =~= seq!['q', 'u', 'a', 'r', 't', 'i', 'n', 'o', 'u', 't']);
    reveal_strlit("quint-in");
    assert("quint-in"@ =~= seq!['q', 'u', 'i', 'n', 't', '-', 'i', 'n']);
    reveal_strlit("quintin");
    assert("quintin"@ =~= seq!['q', 'u', 'i', 'n', 't', 'i', 'n']);
    reveal_strlit("quint-out");
    assert("quint-out"@ =~= seq!['q', 'u', 'i', 'n', 't', '-', 'o', 'u', 't']);
    reveal_strlit("quintout");
    assert("quintout"@ =~= seq!['q', 'u', 'i', 'n', 't', 'o', 'u', 't']);
    reveal_strlit("quint-in-out");
    assert("quint-in-out"@ =~= seq!['q', 'u', 'i', 'n', 't', '-', 'i', 'n', '-', 'o', 'u', 't']);
    reveal_strlit("quintinout");
    assert("quintinout"@ =~= seq!['q', 'u', 'i', 'n', 't', 'i', 'n', 'o', 'u', 't']);
    reveal_strlit("sine-in");
    assert("sine-in"@ =~= seq!['s', 'i', 'n', 'e', '-', 'i', 'n']);
    reveal_strlit("sinein");
    assert("sinein"@ =~= seq!['s', 'i', 'n', 'e', 'i', 'n']);
    reveal_strlit("sine-out");
    assert("sine-out"@ =~= seq!['s', 'i', 'n', 'e', '-', 'o', 'u', 't']);
    reveal_strlit("sineout");
    assert("sineout"@ =~= seq!['s', 'i', 'n', 'e', 'o', 'u', 't']);
    reveal_strlit("sine-in-out");
    assert("sine-in-out"@ =~= seq!['s', 'i', 'n', 'e', '-', 'i', 'n', '-', 'o', 'u', 't']);
    reveal_strlit("sineinout");
    assert("sineinout"@ =~= seq!['s', 'i', 'n', 'e', 'i', 'n', 'o', 'u', 't']);
    reveal_strlit("expo-in");
    assert("expo-in"@ =~= seq!['e', 'x', 'p', 'o', '-', 'i', 'n']);
    reveal_strlit("expoin");
    assert("expoin"@ =~= seq!['e', 'x', 'p', 'o', 'i', 'n']);
    reveal_strlit("expo-out");
    assert("expo-out"@ =~= seq!['e', 'x', 'p', 'o', '-', 'o', 'u', 't']);
    reveal_strlit("expoout");
    assert("expoout"@ =~= seq!['e', 'x', 'p', 'o', 'o', 'u', 't']);
    reveal_strlit("expo-in-out");
    assert("expo-in-out"@ =~= seq!['e', 'x', 'p', 'o', '-', 'i', 'n', '-', 'o', 'u', 't']);
    reveal_strlit("expoinout");
    assert("expoinout"@ =~= seq!['e', 'x', 'p', 'o', 'i', 'n', 'o', 'u', 't']);
    reveal_strlit("circ-in");
    assert("circ-in"@ =~= seq!['c', 'i', 'r', 'c', '-', 'i', 'n']);
    reveal_strlit("circin");
    assert("circin"@ =~= seq!['c', 'i', 'r', 'c', 'i', 'n']);
    reveal_strlit("circ-out");
    assert("circ-out"@ =~= seq!['c', 'i', 'r', 'c', '-', 'o', 'u', 't']);
    reveal_strlit("circout");
    assert("circout"@ =~= seq!['c', 'i', 'r', 'c', 'o', 'u', 't']);
    reveal_strlit("circ-in-out");
    assert("circ-in-out"@ =~= seq!['c', 'i', 'r', 'c', '-', 'i', 'n', '-', 'o', 'u', 't']);
    reveal_strlit("circinout");
    assert("circinout"@ =~= seq!['c', 'i', 'r', 'c', 'i', 'n', 'o', 'u', 't']);
    reveal_strlit("elastic-in");
    assert("elastic-in"@ =~= seq!['e', 'l', 'a', 's', 't', 'i', 'c', '-', 'i', 'n']);
    reveal_strlit("elasticin");
    assert("elasticin"@ =~= seq!['e', 'l', 'a', 's', 't', 'i', 'c', 'i', 'n']);
    reveal_strlit("elastic-out");
    assert("elastic-out"@ =~= seq!['e', 'l', 'a', 's', 't', 'i', 'c', '-', 'o', 'u', 't']);
    reveal_strlit("elasticout");
    assert("elasticout"@ =~= seq!['e', 'l', 'a', 's', 't', 'i', 'c', 'o', 'u', 't']);
    reveal_strlit("elastic-in-out");
    assert("elastic-in-out"@ =~= seq!['e', 'l', 'a', 's', 't', 'i', 'c', '-', 'i', 'n', '-', 'o', 'u', 't']);
    reveal_strlit("elasticinout");
    assert("elasticinout"@ =~= seq!['e', 'l', 'a', 's', 't', 'i', 'c', 'i', 'n', 'o', 'u', 't']);
    reveal_strlit("back-in");
    assert("back-in"@ =~= seq!['b', 'a', 'c', 'k', '-', 'i', 'n']);
    reveal_strlit("backin");
    assert("backin"@ =~= seq!['b', 'a', 'c', 'k', 'i', 'n']);
    reveal_strlit("back-out");
    assert("back-out"@ =~= seq!['b', 'a', 'c', 'k', '-', 'o', 'u', 't']);
    reveal_strlit("backout");
    assert("backout"@ =~= seq!['b', 'a', 'c', 'k', 'o', 'u', 't']);
    reveal_strlit("back-in-out");
    assert("back-in-out"@ =~= seq!['b', 'a', 'c', 'k', '-', 'i', 'n', '-', 'o', 'u', 't']);
    reveal_strlit("backinout");
    assert("backinout"@ =~= seq!['b', 'a', 'c', 'k', 'i', 'n', 'o', 'u', 't']);
    reveal_strlit("bounce-in");
    assert("bounce-in"@ =~= seq!['b', 'o', 'u', 'n', 'c', 'e', '-', 'i', 'n']);
    reveal_strlit("bouncein");
    assert("bouncein"@ =~= seq!['b', 'o', 'u', 'n', 'c', 'e', 'i', 'n']);
    reveal_strlit("bounce-out");
    assert("bounce-out"@ =~= seq!['b', 'o', 'u', 'n', 'c', 'e', '-', 'o', 'u', 't']);
    reveal_strlit("bounceout");
    assert("bounceout"@ =~= seq!['b', 'o', 'u', 'n', 'c', 'e', 'o', 'u', 't']);
    reveal_strlit("bounce-in-out");
    assert("bounce-in-out"@ =~= seq!['b', 'o', 'u', 'n', 'c', 'e', '-', 'i', 'n', '-', 'o', 'u', 't']);
    reveal_strlit("bounceinout");
    assert("bounceinout"@ =~= seq!['b', 'o', 'u', 'n', 'c', 'e', 'i', 'n', 'o', 'u', 't']);
}

} // verus!
