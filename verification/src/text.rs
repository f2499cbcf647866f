//! ASCII-oriented text helpers for the name parsers.
//!
//! The recognized class, pattern and slot names are all ASCII, so matching
//! folds only the ASCII uppercase letters; any other character must match
//! verbatim.

use vstd::prelude::*;
use vstd::string::StrSliceExecFns;

verus! {

/// ASCII lowercase folding of one character.
pub open spec fn spec_lower_char(c: char) -> char {
    if 65 <= c as u32 <= 90 {
        ((c as u32 + 32) as u8) as char
    } else {
        c
    }
}

/// ASCII lowercase folding of a character sequence.
pub open spec fn spec_lower(s: Seq<char>) -> Seq<char> {
    s.map_values(|c: char| spec_lower_char(c))
}

/// The separator characters that class-name matching ignores.
pub open spec fn spec_is_sep(c: char) -> bool {
    c == ' ' || c == '_' || c == '-'
}

/// Lowercase folding with the separator characters removed.
pub open spec fn spec_normalize(s: Seq<char>) -> Seq<char>
    decreases s.len(),
{
    if s.len() == 0 {
        Seq::empty()
    } else if spec_is_sep(s.last()) {
        spec_normalize(s.drop_last())
    } else {
        spec_normalize(s.drop_last()).push(spec_lower_char(s.last()))
    }
}

/// ASCII lowercase folding of one character.
pub fn lower_char(c: char) -> (r: char)
    ensures
        r == spec_lower_char(c),
{
    let u: u32 = c as u32;
    if 65 <= u && u <= 90 {
        ((u + 32) as u8) as char
    } else {
        c
    }
}

/// ASCII lowercase folding of a string, as a character vector.
pub fn lower_chars(s: &str) -> (v: Vec<char>)
    ensures
        v@ == spec_lower(s@),
{
    let n: usize = s.unicode_len();
    let mut v: Vec<char> = Vec::new();
    let mut i: usize = 0;
    while i < n
        invariant
            n == s@.len(),
            i <= n,
            v@.len() == i,
            forall|j: int| 0 <= j < i ==> v@[j] == spec_lower_char(s@[j]),
        decreases n - i,
    {
        let c = s.get_char(i);
        v.push(lower_char(c));
        i = i + 1;
    }
    assert(v@ =~= spec_lower(s@));
    v
}

/// Lowercase folding of a string with separators removed, as a character
/// vector.
pub fn normalize_chars(s: &str) -> (v: Vec<char>)
    ensures
        v@ == spec_normalize(s@),
{
    let n: usize = s.unicode_len();
    let mut v: Vec<char> = Vec::new();
    let mut i: usize = 0;
    while i < n
        invariant
            n == s@.len(),
            i <= n,
            v@ == spec_normalize(s@.subrange(0, i as int)),
        decreases n - i,
    {
        let c = s.get_char(i);
        proof {
            assert(s@.subrange(0, i + 1).drop_last() =~= s@.subrange(0, i as int));
            assert(s@.subrange(0, i + 1).last() == s@[i as int]);
        }
        if !(c == ' ' || c == '_' || c == '-') {
            v.push(lower_char(c));
        }
        i = i + 1;
    }
    proof {
        assert(s@.subrange(0, n as int) =~= s@);
    }
    v
}

/// Whether two strings spell the same characters.
pub fn str_eq(s: &str, t: &str) -> (r: bool)
    ensures
        r == (s@ == t@),
{
    let n: usize = s.unicode_len();
    if t.unicode_len() != n {
        proof {
            assert(s@ != t@);
        }
        return false;
    }
    let mut i: usize = 0;
    while i < n
        invariant
            n == s@.len(),
            t@.len() == n,
            i <= n,
            forall|j: int| 0 <= j < i ==> s@[j] == t@[j],
        decreases n - i,
    {
        if s.get_char(i) != t.get_char(i) {
            proof {
                assert(s@[i as int] != t@[i as int]);
            }
            return false;
        }
        i = i + 1;
    }
    proof {
        assert(s@ =~= t@);
    }
    true
}

/// The characters of a string, as a vector.
pub fn str_chars(s: &str) -> (v: Vec<char>)
    ensures
        v@ == s@,
{
    let n: usize = s.unicode_len();
    let mut v: Vec<char> = Vec::new();
    let mut i: usize = 0;
    while i < n
        invariant
            n == s@.len(),
            i <= n,
            v@.len() == i,
            forall|j: int| 0 <= j < i ==> v@[j] == s@[j],
        decreases n - i,
    {
        v.push(s.get_char(i));
        i = i + 1;
    }
    assert(v@ =~= s@);
    v
}

/// Whether a character is an ASCII decimal digit.
pub open spec fn spec_is_digit(c: char) -> bool {
    48 <= c as u32 <= 57
}

/// The numeric value of an ASCII digit.
pub open spec fn spec_digit(c: char) -> int {
    c as u32 - 48
}

/// Whether every character of a sequence is an ASCII digit.
pub open spec fn spec_all_digits(s: Seq<char>) -> bool {
    forall|i: int| 0 <= i < s.len() ==> spec_is_digit(#[trigger] s[i])
}

/// The value of the first `i` characters read as decimal digits.
pub open spec fn spec_digits_prefix(s: Seq<char>, i: nat) -> int
    recommends
        i <= s.len(),
    decreases i,
{
    if i == 0 {
        0
    } else {
        spec_digits_prefix(s, (i - 1) as nat) * 10 + spec_digit(s[i - 1])
    }
}

/// The value of a whole digit sequence read as a decimal number.
pub open spec fn spec_digits_val(s: Seq<char>) -> int {
    spec_digits_prefix(s, s.len())
}

/// Reading digits left to right never decreases the accumulated value.
pub proof fn lemma_digits_prefix_mono(s: Seq<char>, i: nat, j: nat)
    requires
        i <= j <= s.len(),
        spec_all_digits(s),
    ensures
        0 <= spec_digits_prefix(s, i) <= spec_digits_prefix(s, j),
    decreases j,
{
    if j != 0 {
        if i == j {
            lemma_digits_prefix_mono(s, (j - 1) as nat, (j - 1) as nat);
        } else {
            lemma_digits_prefix_mono(s, i, (j - 1) as nat);
        }
    }
}

/// The fraction value of the first six digit positions, in millionths;
/// positions past the end of the sequence read as zero.
pub open spec fn spec_frac6(s: Seq<char>, i: nat) -> int
    decreases i,
{
    if i == 0 {
        0
    } else {
        spec_frac6(s, (i - 1) as nat) * 10 + (if i - 1 < s.len() {
            spec_digit(s[i - 1])
        } else {
            0
        })
    }
}

/// A fraction's value in millionths: six digit positions, with the seventh
/// digit, when present, rounding the last millionth up.
pub open spec fn spec_frac_micro(s: Seq<char>) -> int {
    spec_frac6(s, 6) + if s.len() > 6 && spec_digit(s[6]) >= 5 {
        1int
    } else {
        0int
    }
}

/// Position of the first dot at or after `i`, or minus one.
pub open spec fn spec_dot_from(s: Seq<char>, i: nat) -> int
    decreases s.len() - i,
{
    if i >= s.len() {
        -1
    } else if s[i as int] == '.' {
        i as int
    } else {
        spec_dot_from(s, i + 1)
    }
}

/// Whether a character vector spells exactly the given string.
pub fn chars_eq_str(v: &Vec<char>, t: &str) -> (r: bool)
    ensures
        r == (v@ == t@),
{
    let n: usize = t.unicode_len();
    if v.len() != n {
        proof {
            assert(v@ != t@);
        }
        return false;
    }
    let mut i: usize = 0;
    while i < n
        invariant
            n == t@.len(),
            v@.len() == n,
            i <= n,
            forall|j: int| 0 <= j < i ==> v@[j] == t@[j],
        decreases n - i,
    {
        if v[i] != t.get_char(i) {
            proof {
                assert(v@[i as int] != t@[i as int]);
            }
            return false;
        }
        i = i + 1;
    }
    proof {
        assert(v@ =~= t@);
    }
    true
}

} // verus!
