//! Character-level helpers shared by the validators: ASCII case folding and
//! the character classes that addresses and identifiers draw from.

use vstd::prelude::*;

verus! {

/// ASCII lower-casing of one character; everything outside `A`..`Z` is kept.
pub open spec fn lower_char(c: char) -> char {
    match c {
        'A' => 'a',
        'B' => 'b',
        'C' => 'c',
        'D' => 'd',
        'E' => 'e',
        'F' => 'f',
        'G' => 'g',
        'H' => 'h',
        'I' => 'i',
        'J' => 'j',
        'K' => 'k',
        'L' => 'l',
        'M' => 'm',
        'N' => 'n',
        'O' => 'o',
        'P' => 'p',
        'Q' => 'q',
        'R' => 'r',
        'S' => 's',
        'T' => 't',
        'U' => 'u',
        'V' => 'v',
        'W' => 'w',
        'X' => 'x',
        'Y' => 'y',
        'Z' => 'z',
        _ => c,
    }
}

/// ASCII lower-casing of a whole text.
pub open spec fn lower_seq(s: Seq<char>) -> Seq<char> {
    s.map_values(|c: char| lower_char(c))
}

/// Lower-cases one ASCII letter, and keeps every other character.
pub fn to_lower(c: char) -> (r: char)
    ensures
        r == lower_char(c),
{
    match c {
        'A' => 'a',
        'B' => 'b',
        'C' => 'c',
        'D' => 'd',
        'E' => 'e',
        'F' => 'f',
        'G' => 'g',
        'H' => 'h',
        'I' => 'i',
        'J' => 'j',
        'K' => 'k',
        'L' => 'l',
        'M' => 'm',
        'N' => 'n',
        'O' => 'o',
        'P' => 'p',
        'Q' => 'q',
        'R' => 'r',
        'S' => 's',
        'T' => 't',
        'U' => 'u',
        'V' => 'v',
        'W' => 'w',
        'X' => 'x',
        'Y' => 'y',
        'Z' => 'z',
        _ => c,
    }
}

/// Whether two texts are equal once ASCII case is folded away.
pub fn eq_ignore_ascii_case(s: &str, t: &str) -> (b: bool)
    ensures
        b == (lower_seq(s@) == lower_seq(t@)),
{
    let s_len: usize = s.unicode_len();
    let t_len: usize = t.unicode_len();
    if s_len != t_len {
        proof {
            assert(lower_seq(s@).len() != lower_seq(t@).len());
        }
        return false;
    }
    let mut i: usize = 0;
    while i < s_len
        invariant
            s_len == s@.len(),
            t_len == t@.len(),
            s_len == t_len,
            i <= s_len,
            forall|j: int| 0 <= j < i ==> lower_char(s@[j]) == lower_char(t@[j]),
        decreases s_len - i,
    {
        let a = to_lower(s.get_char(i));
        let b = to_lower(t.get_char(i));
        if a != b {
            proof {
                assert(lower_seq(s@)[i as int] != lower_seq(t@)[i as int]);
            }
            return false;
        }
        i += 1;
    }
    proof {
        assert(lower_seq(s@) =~= lower_seq(t@));
    }
    true
}

} // verus!
