//! The header model: an ordered list of name/value pairs with
//! case-insensitive names, and the verified operations the pipeline
//! performs on it.

use vstd::prelude::*;
use vstd::string::*;
use crate::strutil::{name_matches, name_eq_lower, clone_bytes};

verus! {

/// One header: a name and a raw byte value. Values are kept as bytes so
/// that headers the proxy does not touch pass through byte-identically.
pub struct Header {
    pub name: String,
    pub value: Vec<u8>,
}

/// The mathematical content of one header.
pub open spec fn hview(h: Header) -> (Seq<char>, Seq<u8>) {
    (h.name@, h.value@)
}

/// The mathematical content of a header list.
pub open spec fn hviews(hs: Seq<Header>) -> Seq<(Seq<char>, Seq<u8>)> {
    hs.map_values(|h: Header| hview(h))
}

/// The value of the first header whose lowercased name equals `word`.
pub open spec fn spec_find_header(hs: Seq<Header>, word: Seq<char>) -> Option<Seq<u8>>
    decreases hs.len(),
{
    if hs.len() == 0 {
        None
    } else if name_matches(hs[0].name@, word) {
        Some(hs[0].value@)
    } else {
        spec_find_header(hs.drop_first(), word)
    }
}

/// The header list with every entry whose lowercased name equals `word`
/// removed; the order of the rest is kept.
pub open spec fn spec_strip_name(hs: Seq<Header>, word: Seq<char>) -> Seq<Header>
    decreases hs.len(),
{
    if hs.len() == 0 {
        Seq::empty()
    } else if name_matches(hs[0].name@, word) {
        spec_strip_name(hs.drop_first(), word)
    } else {
        seq![hs[0]] + spec_strip_name(hs.drop_first(), word)
    }
}

/// No entry of a stripped list carries the stripped name.
pub proof fn lemma_strip_name_free(hs: Seq<Header>, word: Seq<char>)
    ensures
        forall|i: int|
            0 <= i < spec_strip_name(hs, word).len() ==> !name_matches(
                #[trigger] spec_strip_name(hs, word)[i].name@,
                word,
            ),
    decreases hs.len(),
{
    if hs.len() > 0 {
        lemma_strip_name_free(hs.drop_first(), word);
        let s = spec_strip_name(hs, word);
        let rest = spec_strip_name(hs.drop_first(), word);
        assert forall|i: int| 0 <= i < s.len() implies !name_matches(s[i].name@, word) by {
            if name_matches(hs[0].name@, word) {
                assert(s[i] == rest[i]);
            } else if i == 0 {
                assert(s[0] == hs[0]);
            } else {
                assert(s[i] == rest[i - 1]);
            }
        }
    }
}

/// A fresh copy of a header.
pub fn clone_header(h: &Header) -> (r: Header)
    ensures
        r.name@ == h.name@,
        r.value@ == h.value@,
{
    Header { name: h.name.clone(), value: clone_bytes(&h.value) }
}

/// Finds the first header whose lowercased name equals `word` and hands
/// back a copy of its value.
pub fn find_header(hs: &Vec<Header>, word: &str) -> (r: Option<Vec<u8>>)
    ensures
        r matches Some(v) ==> spec_find_header(hs@, word@) == Some(v@),
        r is None <==> spec_find_header(hs@, word@) is None,
{
    let mut i: usize = 0;
    proof {
        assert(hs@.skip(0) =~= hs@);
    }
    while i < hs.len()
        invariant
            0 <= i <= hs@.len(),
            spec_find_header(hs@, word@) == spec_find_header(hs@.skip(i as int), word@),
        decreases hs@.len() - i,
    {
        proof {
            assert(hs@.skip(i as int)[0] == hs@[i as int]);
            assert(hs@.skip(i as int).drop_first() =~= hs@.skip(i + 1));
        }
        if name_eq_lower(hs[i].name.as_str(), word) {
            return Some(clone_bytes(&hs[i].value));
        }
        i += 1;
    }
    proof {
        assert(hs@.skip(hs@.len() as int).len() == 0);
    }
    None
}

/// A fresh copy of a header list.
pub fn copy_headers(hs: &Vec<Header>) -> (out: Vec<Header>)
    ensures
        hviews(out@) == hviews(hs@),
{
    let mut out: Vec<Header> = Vec::new();
    let mut i: usize = 0;
    while i < hs.len()
        invariant
            0 <= i <= hs@.len(),
            hviews(out@) == hviews(hs@.take(i as int)),
        decreases hs@.len() - i,
    {
        let ghost prev = out@;
        out.push(clone_header(&hs[i]));
        proof {
            assert(hviews(out@) =~= hviews(prev).push(hview(hs@[i as int])));
            assert(hviews(hs@.take(i + 1)) =~= hviews(hs@.take(i as int)).push(hview(hs@[i as int])));
        }
        i += 1;
    }
    proof {
        assert(hs@.take(hs@.len() as int) =~= hs@);
    }
    out
}

/// Copies `hs` from position `start` on, leaving out every header whose
/// lowercased name equals `word`.
pub fn strip_name_from(hs: &Vec<Header>, start: usize, word: &str) -> (out: Vec<Header>)
    requires
        start <= hs@.len(),
    ensures
        hviews(out@) == hviews(spec_strip_name(hs@.skip(start as int), word@)),
{
    let mut out: Vec<Header> = Vec::new();
    let mut i: usize = start;
    while i < hs.len()
        invariant
            start <= i <= hs@.len(),
            hviews(out@) + hviews(spec_strip_name(hs@.skip(i as int), word@)) == hviews(
                spec_strip_name(hs@.skip(start as int), word@),
            ),
        decreases hs@.len() - i,
    {
        proof {
            assert(hs@.skip(i as int)[0] == hs@[i as int]);
            assert(hs@.skip(i as int).drop_first() =~= hs@.skip(i + 1));
        }
        if !name_eq_lower(hs[i].name.as_str(), word) {
            let ghost prev = out@;
            out.push(clone_header(&hs[i]));
            proof {
                assert(hviews(out@) =~= hviews(prev) + seq![hview(hs@[i as int])]);
                assert(hviews(seq![hs@[i as int]] + spec_strip_name(hs@.skip(i + 1), word@))
                    =~= seq![hview(hs@[i as int])] + hviews(spec_strip_name(hs@.skip(i + 1), word@)));
            }
        }
        i += 1;
    }
    proof {
        assert(hs@.skip(hs@.len() as int).len() == 0);
        assert(hviews(out@) =~= hviews(out@) + hviews(spec_strip_name(hs@.skip(hs@.len() as int), word@)));
    }
    out
}

} // verus!
