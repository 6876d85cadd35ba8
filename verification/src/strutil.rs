//! Small verified string utilities used across the pipeline.

use vstd::prelude::*;
use vstd::string::*;

verus! {

/// Whether `pre` is a prefix of `s`, character for character.
pub fn str_has_prefix(s: &str, pre: &str) -> (r: bool)
    ensures
        r == pre@.is_prefix_of(s@),
{
    let n = pre.unicode_len();
    if n > s.unicode_len() {
        return false;
    }
    let mut i: usize = 0;
    while i < n
        invariant
            0 <= i <= n,
            n == pre@.len(),
            n <= s@.len(),
            forall|j: int| 0 <= j < i ==> s@[j] == pre@[j],
        decreases n - i,
    {
        if s.get_char(i) != pre.get_char(i) {
            return false;
        }
        i += 1;
    }
    proof {
        assert(s@.subrange(0, n as int) =~= pre@);
    }
    true
}

/// Whether two strings are equal character for character.
pub fn str_eq(a: &str, b: &str) -> (r: bool)
    ensures
        r == (a@ == b@),
{
    let r = a.unicode_len() == b.unicode_len() && str_has_prefix(a, b);
    proof {
        if a@.len() == b@.len() && b@.is_prefix_of(a@) {
            assert(a@.subrange(0, b@.len() as int) =~= a@);
        }
        if a@ == b@ {
            assert(a@.subrange(0, b@.len() as int) =~= b@);
        }
    }
    r
}

/// The character for one decimal digit.
pub open spec fn dec_digit(d: nat) -> char {
    if d == 0 {
        '0'
    } else if d == 1 {
        '1'
    } else if d == 2 {
        '2'
    } else if d == 3 {
        '3'
    } else if d == 4 {
        '4'
    } else if d == 5 {
        '5'
    } else if d == 6 {
        '6'
    } else if d == 7 {
        '7'
    } else if d == 8 {
        '8'
    } else {
        '9'
    }
}

/// The decimal rendering of `n`, most significant digit first, no leading
/// zeros (a lone zero for `n == 0`).
pub open spec fn spec_dec_string(n: nat) -> Seq<char>
    decreases n,
{
    if n < 10 {
        seq![dec_digit(n)]
    } else {
        spec_dec_string(n / 10).push(dec_digit(n % 10))
    }
}

/// The one-character string for a decimal digit.
fn digit_str(d: u16) -> (r: &'static str)
    requires
        d < 10,
    ensures
        r@ == seq![dec_digit(d as nat)],
{
    proof {
        reveal_strlit("0");
        reveal_strlit("1");
        reveal_strlit("2");
        reveal_strlit("3");
        reveal_strlit("4");
        reveal_strlit("5");
        reveal_strlit("6");
        reveal_strlit("7");
        reveal_strlit("8");
        reveal_strlit("9");
    }
    if d == 0 {
        "0"
    } else if d == 1 {
        "1"
    } else if d == 2 {
        "2"
    } else if d == 3 {
        "3"
    } else if d == 4 {
        "4"
    } else if d == 5 {
        "5"
    } else if d == 6 {
        "6"
    } else if d == 7 {
        "7"
    } else if d == 8 {
        "8"
    } else {
        "9"
    }
}

/// Renders a port number in decimal.
pub fn u16_dec_string(n: u16) -> (r: String)
    ensures
        r@ == spec_dec_string(n as nat),
    decreases n,
{
    let d = n % 10;
    if n < 10 {
        digit_str(d).to_owned()
    } else {
        let mut prefix = u16_dec_string(n / 10);
        prefix.append(digit_str(d));
        prefix
    }
}

/// Whether `c` lowercases (in ASCII) to the lowercase character `l`.
pub open spec fn char_matches_lower(c: char, l: char) -> bool {
    c == l || ('A' <= c && c <= 'Z' && c as int + 32 == l as int)
}

/// Whether the ASCII lowercasing of `name` equals `word` (which is given
/// already in lowercase, such as a fixed header name).
pub open spec fn name_matches(name: Seq<char>, word: Seq<char>) -> bool {
    &&& name.len() == word.len()
    &&& forall|i: int| 0 <= i < name.len() ==> char_matches_lower(name[i], #[trigger] word[i])
}

/// Case-insensitive comparison of a header name against a fixed lowercase word.
pub fn name_eq_lower(name: &str, word: &str) -> (r: bool)
    ensures
        r == name_matches(name@, word@),
{
    let n = name.unicode_len();
    if n != word.unicode_len() {
        return false;
    }
    let mut i: usize = 0;
    while i < n
        invariant
            0 <= i <= n,
            n == name@.len() == word@.len(),
            forall|j: int| 0 <= j < i ==> char_matches_lower(name@[j], #[trigger] word@[j]),
        decreases n - i,
    {
        let c = name.get_char(i);
        let l = word.get_char(i);
        let matches = c == l || ('A' <= c && c <= 'Z' && (c as u32) + 32 == (l as u32));
        if !matches {
            return false;
        }
        i += 1;
    }
    true
}

/// A fresh copy of a byte vector.
pub fn clone_bytes(v: &Vec<u8>) -> (r: Vec<u8>)
    ensures
        r@ == v@,
{
    let mut out: Vec<u8> = Vec::new();
    let mut i: usize = 0;
    while i < v.len()
        invariant
            0 <= i <= v.len(),
            out@ == v@.subrange(0, i as int),
        decreases v.len() - i,
    {
        out.push(v[i]);
        proof {
            assert(out@ =~= v@.subrange(0, i + 1 as int));
        }
        i += 1;
    }
    proof {
        assert(out@ =~= v@);
    }
    out
}

/// Relies on std's `String::from_utf8`: it succeeds exactly on valid UTF-8
/// input and decodes the bytes to the characters they encode.
#[verifier::external_body]
pub(crate) fn utf8_to_string(v: &Vec<u8>) -> (r: Option<String>)
    ensures
        r is Some <==> vstd::utf8::valid_utf8(v@),
        r matches Some(s) ==> s@ == vstd::utf8::decode_utf8(v@),
{
    String::from_utf8(v.clone()).ok()
}

} // verus!
