//! Slicing UTF-8 strings at ASCII bytes, and turning bytes into strings.

use vstd::prelude::*;
use vstd::string::{StringExecFns, StringSliceAdditionalSpecFns};
use vstd::utf8::{
    encode_utf8_valid_utf8, is_char_boundary, is_char_boundary_iff_not_is_continuation_byte,
    is_char_boundary_start_end_of_seq, valid_utf8, valid_utf8_split, decode_utf8,
};

use crate::text::{find_byte, first_index};

verus! {

/// In valid UTF-8, an ASCII byte starts a character and the byte after it
/// starts the next one (or ends the text).
pub proof fn lemma_ascii_boundaries(bytes: Seq<u8>, i: int)
    requires
        valid_utf8(bytes),
        0 <= i < bytes.len(),
        bytes[i] < 0x80,
    ensures
        is_char_boundary(bytes, i),
        is_char_boundary(bytes, i + 1),
{
    is_char_boundary_iff_not_is_continuation_byte(bytes, i);
    if i + 1 == bytes.len() {
        is_char_boundary_start_end_of_seq(bytes);
    } else {
        valid_utf8_split(bytes, i);
        let t = bytes.subrange(i, bytes.len() as int);
        assert(valid_utf8(t));
        let rest = t.subrange(1, t.len() as int);
        assert(valid_utf8(rest));
        is_char_boundary_start_end_of_seq(rest);
        is_char_boundary_iff_not_is_continuation_byte(rest, 0);
        assert(rest[0] == bytes[i + 1]);
        is_char_boundary_iff_not_is_continuation_byte(bytes, i + 1);
    }
}

/// `s` split at its first `c`, an ASCII byte: the text before it and the
/// text after it.
pub fn split_once_ascii(s: &str, c: u8) -> (r: Option<(&str, &str)>)
    requires
        c < 0x80,
    ensures
        match first_index(s.spec_bytes(), c) {
            Some(i) => r matches Some(p) && p.0.spec_bytes() == s.spec_bytes().subrange(0, i)
                && p.1.spec_bytes() == s.spec_bytes().subrange(i + 1, s.spec_bytes().len() as int),
            None => r is None,
        },
{
    let bytes = s.as_bytes();
    match find_byte(bytes, c) {
        None => None,
        Some(i) => {
            proof {
                encode_utf8_valid_utf8(s@);
                lemma_ascii_boundaries(s.spec_bytes(), i as int);
            }
            let (head, tail) = s.split_at(i);
            proof {
                encode_utf8_valid_utf8(tail@);
                assert(tail.spec_bytes()[0] == c);
                lemma_ascii_boundaries(tail.spec_bytes(), 0);
            }
            let (_sep, rest) = tail.split_at(1);
            assert(rest.spec_bytes() =~= s.spec_bytes().subrange(i + 1, s.spec_bytes().len() as int));
            Some((head, rest))
        },
    }
}

/// `String::from_utf8`. Trusted, as std documents it: the bytes become a
/// string exactly when they are valid UTF-8, and the string holds the
/// characters they encode.
#[verifier::external_body]
pub(crate) fn string_from_utf8(v: Vec<u8>) -> (r: Option<String>)
    ensures
        r is Some <==> valid_utf8(v@),
        r matches Some(s) ==> s@ == decode_utf8(v@),
{
    String::from_utf8(v).ok()
}

/// The text of the four strings, one after the other.
pub(crate) fn concat4(a: &str, b: &str, c: &str, d: &str) -> (r: String)
    ensures
        r@ == a@ + b@ + c@ + d@,
{
    let mut r = a.to_owned();
    r.append(b);
    r.append(c);
    r.append(d);
    r
}

} // verus!
