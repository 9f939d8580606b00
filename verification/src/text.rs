//! Text and its byte encoding.
//!
//! Row keys, column qualifiers and cell values travel as raw bytes; the
//! application speaks of them as text. The two are related by UTF-8.

use vstd::prelude::*;
use vstd::utf8::*;

verus! {

/// The bytes that stand for `text` on the wire.
pub open spec fn encoded(text: Seq<char>) -> Seq<u8> {
    encode_utf8(text)
}

/// Whether `bytes` can be read back as text.
pub open spec fn is_text(bytes: Seq<u8>) -> bool {
    valid_utf8(bytes)
}

/// The text that `bytes` stand for, where `is_text(bytes)`.
pub open spec fn decoded(bytes: Seq<u8>) -> Seq<char>
    recommends
        is_text(bytes),
{
    decode_utf8(bytes)
}

/// Whether `needle` occurs in `haystack` as a contiguous run.
pub open spec fn contains_text(haystack: Seq<char>, needle: Seq<char>) -> bool {
    exists|at: int|
        0 <= at && at + needle.len() <= haystack.len() && #[trigger] haystack.subrange(
            at,
            at + needle.len(),
        ) == needle
}

/// Encoding loses nothing: the bytes of a text are readable, and read back as
/// that same text.
pub proof fn lemma_encoding_is_lossless(text: Seq<char>)
    ensures
        is_text(encoded(text)),
        decoded(encoded(text)) == text,
{
    encode_utf8_valid_utf8(text);
    encode_utf8_decode_utf8(text);
}

/// A text that ends in `tail` contains it.
pub proof fn lemma_suffix_is_contained(head: Seq<char>, tail: Seq<char>)
    ensures
        contains_text(head + tail, tail),
{
    let whole = head + tail;
    let at = head.len() as int;
    assert(whole.subrange(at, at + tail.len()) =~= tail);
}

/// The bytes of `text`, as an owned buffer.
pub fn encode(text: &str) -> (bytes: Vec<u8>)
    ensures
        bytes@ == encoded(text@),
{
    text.as_bytes_vec()
}

/// `String::from_utf8` of the standard library: it hands the buffer back as a
/// `String` exactly when the bytes are well-formed UTF-8, and the string then
/// has those very bytes; otherwise it reports an error, which is dropped here.
#[verifier::external_body]
fn string_from_utf8(bytes: Vec<u8>) -> (text: Option<String>)
    ensures
        text.is_some() == valid_utf8(bytes@),
        text matches Some(s) ==> encode_utf8(s@) == bytes@,
{
    match String::from_utf8(bytes) {
        Ok(s) => Some(s),
        Err(_) => None,
    }
}

/// Reads `bytes` as text; `None` where they are not text.
pub fn decode(bytes: Vec<u8>) -> (text: Option<String>)
    ensures
        text.is_some() == is_text(bytes@),
        text matches Some(s) ==> s@ == decoded(bytes@),
{
    let text = string_from_utf8(bytes);
    proof {
        if text.is_some() {
            encode_utf8_decode_utf8(text.unwrap()@);
        }
    }
    text
}

} // verus!
