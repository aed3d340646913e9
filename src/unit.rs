use vstd::prelude::*;
use vstd::string::StrSliceExecFns;

verus! {

/// The four units of a literal angle.
#[derive(Clone, Copy, Debug, PartialEq, Eq, Structural)]
pub enum AngleUnit {
    Deg,
    Grad,
    Rad,
    Turn,
}

/// `c` is an ASCII upper-case letter.
pub open spec fn is_ascii_upper(c: char) -> bool {
    'A' <= c && c <= 'Z'
}

/// `c` reads as `lower` when ASCII letters are compared without case;
/// `lower` is written in lower case.
pub open spec fn char_folds_to(c: char, lower: char) -> bool {
    c == lower || (is_ascii_upper(c) && c as u32 + 32 == lower as u32)
}

/// `s` reads as the lower-case word `lower`, ASCII case ignored.
pub open spec fn folds_to(s: Seq<char>, lower: Seq<char>) -> bool {
    &&& s.len() == lower.len()
    &&& forall|i: int| 0 <= i < s.len() ==> char_folds_to(#[trigger] s[i], lower[i])
}

/// The canonical (lower-case) name of a unit.
pub open spec fn unit_name(u: AngleUnit) -> Seq<char> {
    match u {
        AngleUnit::Deg => seq!['d', 'e', 'g'],
        AngleUnit::Grad => seq!['g', 'r', 'a', 'd'],
        AngleUnit::Rad => seq!['r', 'a', 'd'],
        AngleUnit::Turn => seq!['t', 'u', 'r', 'n'],
    }
}

/// The unit that a unit identifier names, ASCII case ignored.
pub open spec fn unit_named(s: Seq<char>) -> Option<AngleUnit> {
    if folds_to(s, unit_name(AngleUnit::Deg)) {
        Some(AngleUnit::Deg)
    } else if folds_to(s, unit_name(AngleUnit::Grad)) {
        Some(AngleUnit::Grad)
    } else if folds_to(s, unit_name(AngleUnit::Turn)) {
        Some(AngleUnit::Turn)
    } else if folds_to(s, unit_name(AngleUnit::Rad)) {
        Some(AngleUnit::Rad)
    } else {
        None
    }
}

/// The name of the one function whose body is an angle expression.
pub open spec fn calc_name() -> Seq<char> {
    seq!['c', 'a', 'l', 'c']
}

/// Whether `s` reads as the lower-case word `lower`, ASCII case ignored.
fn eq_ignore_ascii_case(s: &str, lower: &str) -> (r: bool)
    ensures
        r == folds_to(s@, lower@),
{
    let n = s.unicode_len();
    if n != lower.unicode_len() {
        return false;
    }
    let mut i: usize = 0;
    while i < n
        invariant
            n == s@.len(),
            n == lower@.len(),
            i <= n,
            forall|j: int| 0 <= j < i ==> char_folds_to(#[trigger] s@[j], lower@[j]),
        decreases n - i,
    {
        let c = s.get_char(i);
        let l = lower.get_char(i);
        let same = c == l || ('A' <= c && c <= 'Z' && c as u32 + 32 == l as u32);
        if !same {
            assert(!char_folds_to(s@[i as int], lower@[i as int]));
            return false;
        }
        i = i + 1;
    }
    true
}

/// Whether a function token's name opens an angle expression (`calc`,
/// ASCII case ignored).
pub fn is_calc_function(name: &str) -> (r: bool)
    ensures
        r == folds_to(name@, calc_name()),
{
    proof {
        reveal_strlit("calc");
    }
    eq_ignore_ascii_case(name, "calc")
}

impl AngleUnit {
    /// The unit that a dimension token's unit identifier names, matched
    /// without ASCII case against `deg`, `grad`, `turn` and `rad`.
    pub fn from_name(name: &str) -> (r: Option<AngleUnit>)
        ensures
            r == unit_named(name@),
    {
        proof {
            reveal_strlit("deg");
            reveal_strlit("grad");
            reveal_strlit("turn");
            reveal_strlit("rad");
        }
        if eq_ignore_ascii_case(name, "deg") {
            Some(AngleUnit::Deg)
        } else if eq_ignore_ascii_case(name, "grad") {
            Some(AngleUnit::Grad)
        } else if eq_ignore_ascii_case(name, "turn") {
            Some(AngleUnit::Turn)
        } else if eq_ignore_ascii_case(name, "rad") {
            Some(AngleUnit::Rad)
        } else {
            None
        }
    }

    /// The canonical name of the unit, as it is written out.
    pub fn as_str(&self) -> (r: &'static str)
        ensures
            r@ == unit_name(*self),
    {
        match self {
            AngleUnit::Deg => {
                proof {
                    reveal_strlit("deg");
                }
                "deg"
            },
            AngleUnit::Grad => {
                proof {
                    reveal_strlit("grad");
                }
                "grad"
            },
            AngleUnit::Rad => {
                proof {
                    reveal_strlit("rad");
                }
                "rad"
            },
            AngleUnit::Turn => {
                proof {
                    reveal_strlit("turn");
                }
                "turn"
            },
        }
    }
}

/// Writing a unit's name out and reading it back gives the same unit.
pub proof fn lemma_unit_name_round_trip(u: AngleUnit)
    ensures
        unit_named(unit_name(u)) == Some(u),
{
    let n = unit_name(u);
    assert(folds_to(n, n));
}

} // verus!
