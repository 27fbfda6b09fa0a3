use vstd::prelude::*;
use vstd::string::StrSliceExecFns;

verus! {

/// The code point a character counts as when ASCII case is ignored:
/// an ASCII lower-case letter folds to its upper-case counterpart,
/// every other character stands for itself.
pub open spec fn folded_code(c: char) -> int {
    if 97 <= c as int && c as int <= 122 {
        c as int - 32
    } else {
        c as int
    }
}

/// The character a character upper-cases to: an ASCII lower-case letter
/// maps to its upper-case counterpart, every other character is unchanged.
pub open spec fn upper_char(c: char) -> char {
    if 97 <= c as int && c as int <= 122 {
        (c as int - 32) as char
    } else {
        c
    }
}

/// A character sequence, ASCII-upper-cased character by character.
pub open spec fn upper_seq(s: Seq<char>) -> Seq<char> {
    Seq::new(s.len(), |i: int| upper_char(s[i]))
}

/// Relies on `str::to_ascii_uppercase`: ASCII letters `a` to `z` map to
/// `A` to `Z`, every other character is unchanged.
#[verifier::external_body]
pub(crate) fn to_ascii_upper(s: &str) -> (r: String)
    ensures
        r@ == upper_seq(s@),
{
    s.to_ascii_uppercase()
}

/// Two characters are equal once ASCII case is ignored.
pub open spec fn char_eq_ci(a: char, b: char) -> bool {
    folded_code(a) == folded_code(b)
}

/// Two character sequences are equal once ASCII case is ignored.
pub open spec fn seq_eq_ci(a: Seq<char>, b: Seq<char>) -> bool {
    &&& a.len() == b.len()
    &&& forall|i: int| 0 <= i < a.len() ==> char_eq_ci(a[i], b[i])
}

/// Compares two characters, ignoring ASCII case.
fn char_matches_ci(a: char, b: char) -> (r: bool)
    ensures
        r == char_eq_ci(a, b),
{
    let ua: u32 = a as u32;
    let ub: u32 = b as u32;
    let fa: u32 = if 97 <= ua && ua <= 122 {
        ua - 32
    } else {
        ua
    };
    let fb: u32 = if 97 <= ub && ub <= 122 {
        ub - 32
    } else {
        ub
    };
    fa == fb
}

/// Compares two strings, ignoring ASCII case.
pub fn str_eq_ci(a: &str, b: &str) -> (r: bool)
    ensures
        r == seq_eq_ci(a@, b@),
{
    let alen = a.unicode_len();
    let blen = b.unicode_len();
    if alen != blen {
        return false;
    }
    let mut i: usize = 0;
    while i < alen
        invariant
            i <= alen,
            alen == a@.len(),
            blen == b@.len(),
            alen == blen,
            forall|j: int| 0 <= j < i ==> char_eq_ci(a@[j], b@[j]),
        decreases alen - i,
    {
        if !char_matches_ci(a.get_char(i), b.get_char(i)) {
            assert(!char_eq_ci(a@[i as int], b@[i as int]));
            return false;
        }
        i += 1;
    }
    true
}

} // verus!
