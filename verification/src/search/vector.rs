//! The integer side of the local text embedding: tokens, their FNV-1a hashes, and the
//! dimension and sign each token adds to.
use vstd::prelude::*;

use crate::search::strategies::at_least;
use crate::text::{chars_of, chars_vecs_view, non_alnum_sep, split_by, split_chars, string_from_chars, strs_view, Separator};

verus! {

broadcast use vstd::string::group_string_axioms;

pub const DEFAULT_EMBEDDING_DIM: usize = 64;

pub open spec fn ascii_lower(c: char) -> char {
    if 'A' <= c <= 'Z' {
        ((c as u32) + 32) as char
    } else {
        c
    }
}

pub open spec fn ascii_lower_seq(s: Seq<char>) -> Seq<char> {
    s.map_values(|c: char| ascii_lower(c))
}

/// The tokens of `text`: runs of ASCII letters and digits at least two long, lowercased.
pub open spec fn token_list(text: Seq<char>) -> Seq<Seq<char>> {
    at_least(split_by(text, non_alnum_sep()), 2).map_values(|t: Seq<char>| ascii_lower_seq(t))
}

fn lower_chars(s: &Vec<char>) -> (r: Vec<char>)
    ensures
        r@ == ascii_lower_seq(s@),
{
    let mut out: Vec<char> = Vec::new();
    let mut i: usize = 0;
    while i < s.len()
        invariant
            i <= s@.len(),
            out@ == ascii_lower_seq(s@.take(i as int)),
        decreases s.len() - i,
    {
        let c = s[i];
        let l = if 'A' <= c && c <= 'Z' {
            char_plus_32(c)
        } else {
            c
        };
        out.push(l);
        i = i + 1;
        assert(out@ =~= ascii_lower_seq(s@.take(i as int)));
    }
    assert(s@.take(s@.len() as int) =~= s@);
    out
}

/// The lowercase letter of an uppercase ASCII letter.
fn char_plus_32(c: char) -> (r: char)
    requires
        'A' <= c <= 'Z',
    ensures
        r == ((c as u32) + 32) as char,
{
    let n = c as u32;
    if n == 65 { 'a' } else if n == 66 { 'b' } else if n == 67 { 'c' } else if n == 68 { 'd' }
    else if n == 69 { 'e' } else if n == 70 { 'f' } else if n == 71 { 'g' } else if n == 72 { 'h' }
    else if n == 73 { 'i' } else if n == 74 { 'j' } else if n == 75 { 'k' } else if n == 76 { 'l' }
    else if n == 77 { 'm' } else if n == 78 { 'n' } else if n == 79 { 'o' } else if n == 80 { 'p' }
    else if n == 81 { 'q' } else if n == 82 { 'r' } else if n == 83 { 's' } else if n == 84 { 't' }
    else if n == 85 { 'u' } else if n == 86 { 'v' } else if n == 87 { 'w' } else if n == 88 { 'x' }
    else if n == 89 { 'y' } else { 'z' }
}

/// The tokens of `text`.
pub fn tokens(text: &str) -> (r: Vec<String>)
    ensures
        strs_view(r@) == token_list(text@),
{
    let c = chars_of(text);
    let pieces = split_chars(c.as_slice(), Separator::NonAlnum);
    let ghost pv = chars_vecs_view(pieces@);
    let mut out: Vec<String> = Vec::new();
    let mut i: usize = 0;
    while i < pieces.len()
        invariant
            i <= pieces@.len(),
            pv == chars_vecs_view(pieces@),
            strs_view(out@) == at_least(pv.take(i as int), 2).map_values(
                |t: Seq<char>| ascii_lower_seq(t),
            ),
        decreases pieces.len() - i,
    {
        assert(pv.take(i + 1).drop_last() =~= pv.take(i as int));
        assert(pv.take(i + 1).last() == pieces@[i as int]@);
        let ghost before = at_least(pv.take(i as int), 2);
        let ghost o0 = out@;
        if pieces[i].len() >= 2 {
            let l = lower_chars(&pieces[i]);
            let ls = string_from_chars(l.as_slice());
            out.push(ls);
            assert(strs_view(out@) =~= strs_view(o0).push(l@));
            assert(before.push(pieces@[i as int]@).map_values(|t: Seq<char>| ascii_lower_seq(t))
                =~= before.map_values(|t: Seq<char>| ascii_lower_seq(t)).push(l@));
            assert(at_least(pv.take(i + 1), 2) == before.push(pieces@[i as int]@));
            assert(strs_view(out@) =~= before.push(pieces@[i as int]@).map_values(
                |t: Seq<char>| ascii_lower_seq(t),
            ));
        } else {
            assert(at_least(pv.take(i + 1), 2) == before);
        }
        i = i + 1;
    }
    assert(pv.take(pieces@.len() as int) =~= pv);
    out
}

/// The 64-bit FNV-1a hash of `bytes`.
pub open spec fn fnv1a_spec(bytes: Seq<u8>) -> u64
    decreases bytes.len(),
{
    if bytes.len() == 0 {
        0xcbf29ce484222325u64
    } else {
        (fnv1a_spec(bytes.drop_last()) ^ (bytes.last() as u64)).wrapping_mul(0x100000001b3u64)
    }
}

pub fn fnv1a(bytes: &[u8]) -> (r: u64)
    ensures
        r == fnv1a_spec(bytes@),
{
    let mut hash: u64 = 0xcbf29ce484222325u64;
    let mut i: usize = 0;
    while i < bytes.len()
        invariant
            i <= bytes@.len(),
            hash == fnv1a_spec(bytes@.take(i as int)),
        decreases bytes.len() - i,
    {
        assert(bytes@.take(i + 1).drop_last() =~= bytes@.take(i as int));
        hash = hash ^ (bytes[i] as u64);
        hash = hash.wrapping_mul(0x100000001b3u64);
        i = i + 1;
    }
    assert(bytes@.take(bytes@.len() as int) =~= bytes@);
    hash
}

/// The dimension a hash adds to, and whether it adds or subtracts one.
pub open spec fn slot_of(hash: u64, dim: usize) -> (usize, bool) {
    (((hash as usize) as int % dim as int) as usize, hash & 1 == 0)
}

/// For each token of `text`, the dimension of a `dim`-wide embedding it adds to and whether
/// it adds (`true`) or subtracts one; a width below one counts as one.
pub open spec fn embedding_slots_spec(text: Seq<char>, dim: usize) -> Seq<(usize, bool)> {
    let d: usize = if dim < 1 {
        1
    } else {
        dim
    };
    token_list(text).map_values(
        |t: Seq<char>| slot_of(fnv1a_spec(vstd::utf8::encode_utf8(t)), d),
    )
}

pub fn embedding_slots(text: &str, dim: usize) -> (r: Vec<(usize, bool)>)
    ensures
        r@ == embedding_slots_spec(text@, dim),
        forall|i: int| 0 <= i < r@.len() ==> (#[trigger] r@[i]).0 < (if dim < 1 { 1 } else { dim }),
{
    let d: usize = if dim < 1 {
        1
    } else {
        dim
    };
    let toks = tokens(text);
    let ghost tl = token_list(text@);
    let mut out: Vec<(usize, bool)> = Vec::new();
    let mut i: usize = 0;
    while i < toks.len()
        invariant
            i <= toks@.len(),
            d >= 1,
            d == (if dim < 1 { 1 } else { dim }),
            strs_view(toks@) == tl,
            out@ == tl.take(i as int).map_values(
                |t: Seq<char>| slot_of(fnv1a_spec(vstd::utf8::encode_utf8(t)), d),
            ),
            forall|k: int| 0 <= k < out@.len() ==> (#[trigger] out@[k]).0 < d,
        decreases toks.len() - i,
    {
        let bytes = toks[i].as_str().as_bytes();
        let h = fnv1a(bytes);
        assert(toks@[i as int]@ == tl[i as int]);
        let index = (h as usize) % d;
        out.push((index, h & 1 == 0));
        i = i + 1;
        assert(out@ =~= tl.take(i as int).map_values(
            |t: Seq<char>| slot_of(fnv1a_spec(vstd::utf8::encode_utf8(t)), d),
        ));
    }
    assert(tl.take(toks@.len() as int) =~= tl);
    out
}

} // verus!
