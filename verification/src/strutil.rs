//! Small string utilities shared by the library.

use vstd::prelude::*;
use vstd::string::{StringSliceAdditionalSpecFns, StrSliceExecFns};
use vstd::utf8::{decode_utf8, encode_utf8, encode_utf8_decode_utf8};

verus! {

/// String equality by content.
pub fn str_eq(a: &str, b: &str) -> (r: bool)
    ensures
        r == (a@ == b@),
{
    let abytes = a.as_bytes();
    let bbytes = b.as_bytes();
    if abytes.len() != bbytes.len() {
        proof {
            assert(a@ != b@);
        }
        return false;
    }
    let n = abytes.len();
    let mut i: usize = 0;
    while i < n
        invariant
            n == abytes@.len() == bbytes@.len(),
            abytes@ == a.spec_bytes(),
            bbytes@ == b.spec_bytes(),
            i <= n,
            forall|j: int| 0 <= j < i ==> abytes@[j] == bbytes@[j],
        decreases n - i,
    {
        if abytes[i] != bbytes[i] {
            proof {
                assert(a.spec_bytes() != b.spec_bytes());
            }
            return false;
        }
        i += 1;
    }
    proof {
        assert(a.spec_bytes() =~= b.spec_bytes());
        encode_utf8_decode_utf8(a@);
        encode_utf8_decode_utf8(b@);
        assert(a@ == decode_utf8(encode_utf8(a@)));
    }
    true
}


/// The index of the first occurrence of `c` at or after `pos`, or the
/// length when there is none.
pub open spec fn find_from(s: Seq<char>, pos: int, c: char) -> int
    decreases s.len() - pos,
{
    if pos < 0 || pos >= s.len() {
        s.len() as int
    } else if s[pos] == c {
        pos
    } else {
        find_from(s, pos + 1, c)
    }
}

/// The first occurrence never lies before where the search began, nor past
/// the end.
pub proof fn lemma_find_from_bounds(s: Seq<char>, pos: int, c: char)
    requires
        0 <= pos <= s.len(),
    ensures
        pos <= find_from(s, pos, c) <= s.len(),
    decreases s.len() - pos,
{
    if pos < s.len() && s[pos] != c {
        lemma_find_from_bounds(s, pos + 1, c);
    }
}

/// Finds the first occurrence of `c` in `s` at or after `pos`.
pub fn str_find_from(s: &str, pos: usize, c: char) -> (i: usize)
    requires
        pos <= s@.len(),
    ensures
        i == find_from(s@, pos as int, c),
        pos <= i <= s@.len(),
{
    let n = s.unicode_len();
    let mut i: usize = pos;
    while i < n
        invariant
            n == s@.len(),
            pos <= i <= n,
            find_from(s@, pos as int, c) == find_from(s@, i as int, c),
        decreases n - i,
    {
        if s.get_char(i) == c {
            return i;
        }
        i += 1;
    }
    i
}
/// Relies on `String::from_utf8`: it succeeds exactly on valid UTF-8 and
/// decodes those bytes; in particular, bytes below 0x80 are ASCII, hence
/// valid, and decode to exactly those characters.
#[verifier::external_body]
pub(crate) fn string_from_utf8(bytes: Vec<u8>) -> (r: Option<String>)
    ensures
        r is Some <==> vstd::utf8::valid_utf8(bytes@),
        r matches Some(s) ==> s@ == vstd::utf8::decode_utf8(bytes@),
        r is None ==> exists|i: int| 0 <= i < bytes@.len() && #[trigger] bytes@[i] >= 0x80,
        r matches Some(s) ==> ((forall|i: int| 0 <= i < bytes@.len() ==> bytes@[i] < 0x80) ==> s@
            == bytes@.map_values(|b: u8| b as char)),
{
    String::from_utf8(bytes).ok()
}

/// Turns ASCII bytes into the string holding exactly those characters.
pub(crate) fn string_from_ascii_bytes(bytes: Vec<u8>) -> (r: String)
    requires
        forall|i: int| 0 <= i < bytes@.len() ==> bytes@[i] < 0x80,
    ensures
        r@ == bytes@.map_values(|b: u8| b as char),
{
    match string_from_utf8(bytes) {
        Some(r) => r,
        None => {
            proof {
                assert(false);
            }
            String::new()
        },
    }
}


/// The pieces of `s` from `pos` on, split at every occurrence of `sep`:
/// adjacent separators yield empty pieces, and a trailing separator yields a
/// trailing empty piece.
pub open spec fn spec_split(s: Seq<char>, pos: int, sep: char) -> Seq<Seq<char>>
    decreases s.len() - pos,
    via spec_split_decreases
{
    if !(0 <= pos <= s.len()) {
        Seq::empty()
    } else {
        let k = find_from(s, pos, sep);
        if k >= s.len() {
            seq![s.subrange(pos, s.len() as int)]
        } else {
            seq![s.subrange(pos, k)] + spec_split(s, k + 1, sep)
        }
    }
}

#[via_fn]
proof fn spec_split_decreases(s: Seq<char>, pos: int, sep: char) {
    if 0 <= pos <= s.len() {
        lemma_find_from_bounds(s, pos, sep);
    }
}

/// The content of a sequence of owned strings.
pub open spec fn strings_view(v: Seq<String>) -> Seq<Seq<char>> {
    v.map_values(|s: String| s@)
}

/// Splits a string at every occurrence of `sep`.
pub fn split_string(s: &str, sep: char) -> (r: Vec<String>)
    ensures
        strings_view(r@) == spec_split(s@, 0, sep),
{
    let n = s.unicode_len();
    let mut r: Vec<String> = Vec::new();
    let mut pos: usize = 0;
    loop
        invariant
            n == s@.len(),
            0 <= pos <= n,
            spec_split(s@, 0, sep) == strings_view(r@) + spec_split(s@, pos as int, sep),
        decreases n - pos,
    {
        let ghost pieces_before = r@;
        let k = str_find_from(s, pos, sep);
        let piece = s.substring_char(pos, k).to_owned();
        r.push(piece);
        if k >= n {
            proof {
                assert(strings_view(r@) =~= strings_view(pieces_before) + seq![
                    s@.subrange(pos as int, n as int),
                ]);
                assert(spec_split(s@, 0, sep) =~= strings_view(r@));
            }
            return r;
        }
        proof {
            assert(strings_view(r@) =~= strings_view(pieces_before) + seq![
                s@.subrange(pos as int, k as int),
            ]);
            assert(strings_view(r@) + spec_split(s@, k + 1, sep) =~= strings_view(pieces_before)
                + spec_split(s@, pos as int, sep));
        }
        pos = k + 1;
    }
}
} // verus!
