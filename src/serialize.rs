use vstd::prelude::*;
use vstd::string::{StrSliceExecFns, StringExecFns};
use crate::magnitude::{is_negative_bits, is_small_nonzero_bits, spec_is_negative, spec_is_small_nonzero};

verus! {

/// `s` with every leading copy of the nonempty prefix `p` removed.
pub open spec fn strip_all(s: Seq<char>, p: Seq<char>) -> Seq<char>
    decreases s.len(),
{
    if 0 < p.len() && p.len() <= s.len() && s.subrange(0, p.len() as int) == p {
        strip_all(s.subrange(p.len() as int, s.len() as int), p)
    } else {
        s
    }
}

/// The canonical text of a dimension token whose serialization is `t` and
/// whose value has bit pattern `v`: a nonzero value below one in absolute
/// value loses its redundant leading zero (`0.5deg` becomes `.5deg`,
/// `-0.25turn` becomes `-.25turn`); any other text is kept.
pub open spec fn spec_compact(t: Seq<char>, v: u32) -> Seq<char> {
    if spec_is_small_nonzero(v) {
        if spec_is_negative(v) {
            seq!['-'] + strip_all(t, seq!['-', '0'])
        } else {
            strip_all(t, seq!['0'])
        }
    } else {
        t
    }
}

/// Whether `p` occurs in `s` at char position `i`.
fn occurs_at(s: &str, p: &str, i: usize) -> (r: bool)
    requires
        i + p@.len() <= s@.len(),
    ensures
        r == (s@.subrange(i as int, i + p@.len()) == p@),
{
    let n = s.unicode_len();
    let m = p.unicode_len();
    let mut j: usize = 0;
    while j < m
        invariant
            n == s@.len(),
            m == p@.len(),
            i + m <= s@.len(),
            j <= m,
            forall|k: int| 0 <= k < j ==> s@[i + k] == p@[k],
        decreases m - j,
    {
        if s.get_char(i + j) != p.get_char(j) {
            assert(s@.subrange(i as int, i + m)[j as int] != p@[j as int]);
            return false;
        }
        j = j + 1;
    }
    assert(s@.subrange(i as int, i + m) =~= p@);
    true
}

/// `text` with every leading copy of `p` removed.
fn strip_prefix_repeated(text: &str, p: &str) -> (r: String)
    requires
        p@.len() > 0,
    ensures
        r@ == strip_all(text@, p@),
{
    let n = text.unicode_len();
    let m = p.unicode_len();
    let mut i: usize = 0;
    assert(text@.subrange(0, n as int) =~= text@);
    loop
        invariant
            n == text@.len(),
            m == p@.len(),
            m > 0,
            i <= n,
            strip_all(text@.subrange(i as int, n as int), p@) == strip_all(text@, p@),
        ensures
            i <= n,
            strip_all(text@, p@) == text@.subrange(i as int, n as int),
        decreases n - i,
    {
        let rest = Ghost(text@.subrange(i as int, n as int));
        if m <= n - i && occurs_at(text, p, i) {
            assert(rest@.subrange(0, m as int) =~= text@.subrange(i as int, i + m));
            assert(rest@.subrange(m as int, rest@.len() as int) =~= text@.subrange(
                i + m,
                n as int,
            ));
            i = i + m;
        } else {
            assert(m <= n - i ==> rest@.subrange(0, m as int) =~= text@.subrange(
                i as int,
                i + m,
            ));
            assert(strip_all(rest@, p@) == rest@);
            break;
        }
    }
    String::from_str(text.substring_char(i, n))
}

/// Leading-zero compaction of a serialized dimension token. `text` is the
/// token as the tokenizer writes it, for a value with bit pattern `value`.
/// A nonzero value below one in absolute value loses its leading zero; a
/// negative one keeps its minus sign in front. Zero and every other value
/// keep their text.
pub fn compact_leading_zero(text: &str, value: u32) -> (r: String)
    ensures
        r@ == spec_compact(text@, value),
{
    if is_small_nonzero_bits(value) {
        if is_negative_bits(value) {
            proof {
                reveal_strlit("-0");
                reveal_strlit("-");
                assert("-0"@ =~= seq!['-', '0']);
                assert("-"@ =~= seq!['-']);
            }
            let stripped = strip_prefix_repeated(text, "-0");
            String::from_str("-").concat(stripped.as_str())
        } else {
            proof {
                reveal_strlit("0");
                assert("0"@ =~= seq!['0']);
            }
            strip_prefix_repeated(text, "0")
        }
    } else {
        String::from_str(text)
    }
}

} // verus!
