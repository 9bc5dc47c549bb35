//! Detection of a completion marker in agent output.
//!
//! The marker counts as found when it is not empty and its characters occur in
//! the output as one contiguous run, exactly as written. The search itself
//! runs over the UTF-8 bytes of the two texts; the lemmas of this module show
//! that a run of bytes is found there exactly when the run of characters
//! occurs in the text.

use vstd::prelude::*;
use vstd::utf8::*;

verus! {

/// `needle` lies in `haystack`, starting at index `at`.
pub open spec fn occurs_at<T>(needle: Seq<T>, haystack: Seq<T>, at: int) -> bool {
    &&& 0 <= at
    &&& at + needle.len() <= haystack.len()
    &&& haystack.subrange(at, at + needle.len()) == needle
}

/// `needle` lies somewhere in `haystack` as one contiguous run.
pub open spec fn occurs_in<T>(needle: Seq<T>, haystack: Seq<T>) -> bool {
    exists|at: int| occurs_at(needle, haystack, at)
}

/// Whether `output` signals completion under `marker`: an empty marker never
/// does, any other marker does when it occurs in the output.
pub open spec fn promise_detected(output: Seq<char>, marker: Seq<char>) -> bool {
    marker.len() > 0 && occurs_in(marker, output)
}

/// Encoding a concatenation gives the concatenation of the encodings.
proof fn lemma_encode_utf8_concat(a: Seq<char>, b: Seq<char>)
    ensures
        encode_utf8(a + b) == encode_utf8(a) + encode_utf8(b),
    decreases a.len(),
{
    if a.len() == 0 {
        assert(a + b =~= b);
    } else {
        lemma_encode_utf8_concat(a.drop_first(), b);
        assert((a + b).drop_first() =~= a.drop_first() + b);
    }
}

/// The encoding of a text that is not empty is not empty.
proof fn lemma_encode_utf8_nonempty(chars: Seq<char>)
    requires
        chars.len() > 0,
    ensures
        encode_utf8(chars).len() > 0,
{
    assert(encode_scalar(chars[0] as u32).len() > 0);
}

/// Where well-formed UTF-8 starts with a well-formed piece, the piece ends
/// between two characters of the whole.
proof fn lemma_valid_prefix_ends_on_boundary(prefix: Seq<u8>, bytes: Seq<u8>)
    requires
        valid_utf8(prefix),
        valid_utf8(bytes),
        prefix.len() <= bytes.len(),
        bytes.subrange(0, prefix.len() as int) == prefix,
    ensures
        is_char_boundary(bytes, prefix.len() as int),
    decreases prefix.len(),
{
    if prefix.len() > 0 {
        let width = length_of_first_scalar(prefix);
        assert(width == length_of_first_scalar(bytes));
        let prefix_rest = pop_first_scalar(prefix);
        let bytes_rest = pop_first_scalar(bytes);
        assert(bytes_rest.subrange(0, prefix_rest.len() as int) =~= prefix_rest) by {
            assert forall|i: int| 0 <= i < prefix_rest.len() implies bytes_rest[i]
                == prefix_rest[i] by {
                assert(bytes.subrange(0, prefix.len() as int)[width + i] == bytes[width + i]);
            }
        }
        lemma_valid_prefix_ends_on_boundary(prefix_rest, bytes_rest);
    }
}

/// A run of characters that occurs in a text occurs, encoded, in the encoded
/// text.
proof fn lemma_occurrence_survives_encoding(needle: Seq<char>, haystack: Seq<char>, at: int)
    requires
        occurs_at(needle, haystack, at),
    ensures
        occurs_in(encode_utf8(needle), encode_utf8(haystack)),
{
    let before = haystack.subrange(0, at);
    let after = haystack.subrange(at + needle.len(), haystack.len() as int);
    assert(haystack =~= before + (needle + after));
    lemma_encode_utf8_concat(before, needle + after);
    lemma_encode_utf8_concat(needle, after);
    let start = encode_utf8(before).len() as int;
    let encoded = encode_utf8(needle);
    assert(encode_utf8(haystack).subrange(start, start + encoded.len()) =~= encoded);
    assert(occurs_at(encoded, encode_utf8(haystack), start));
}

/// A run of bytes in an encoded text that is the encoding of some characters
/// is where those characters stand in the text.
proof fn lemma_occurrence_survives_decoding(needle: Seq<char>, haystack: Seq<char>, start: int)
    requires
        needle.len() > 0,
        occurs_at(encode_utf8(needle), encode_utf8(haystack), start),
    ensures
        occurs_in(needle, haystack),
{
    let encoded = encode_utf8(needle);
    let bytes = encode_utf8(haystack);
    encode_utf8_valid_utf8(needle);
    encode_utf8_valid_utf8(haystack);
    encode_utf8_decode_utf8(needle);
    encode_utf8_decode_utf8(haystack);
    lemma_encode_utf8_nonempty(needle);

    // The run starts with the first byte of a character.
    is_char_boundary_iff_is_leading_byte(encoded, 0);
    is_char_boundary_iff_is_leading_byte(bytes, start);
    assert(is_char_boundary(bytes, start));

    valid_utf8_split(bytes, start);
    decode_utf8_split(bytes, start);
    let head = bytes.subrange(0, start);
    let tail = bytes.subrange(start, bytes.len() as int);

    // It also ends where a character ends.
    assert(tail.subrange(0, encoded.len() as int) =~= encoded);
    lemma_valid_prefix_ends_on_boundary(encoded, tail);
    valid_utf8_split(tail, encoded.len() as int);
    decode_utf8_split(tail, encoded.len() as int);

    let before = decode_utf8(head);
    let after = decode_utf8(tail.subrange(encoded.len() as int, tail.len() as int));
    assert(haystack =~= before + (needle + after));
    assert(haystack.subrange(before.len() as int, (before.len() + needle.len()) as int) =~= needle);
    assert(occurs_at(needle, haystack, before.len() as int));
}

/// Searching the encoded text for the encoded run answers whether the run of
/// characters occurs in the text.
pub proof fn lemma_utf8_search_is_text_search(needle: Seq<char>, haystack: Seq<char>)
    ensures
        occurs_in(needle, haystack) <==> occurs_in(encode_utf8(needle), encode_utf8(haystack)),
{
    if occurs_in(needle, haystack) {
        let at = choose|at: int| occurs_at(needle, haystack, at);
        lemma_occurrence_survives_encoding(needle, haystack, at);
    }
    if occurs_in(encode_utf8(needle), encode_utf8(haystack)) {
        if needle.len() == 0 {
            assert(haystack.subrange(0, 0) =~= needle);
            assert(occurs_at(needle, haystack, 0));
        } else {
            let start = choose|start: int|
                occurs_at(encode_utf8(needle), encode_utf8(haystack), start);
            lemma_occurrence_survives_decoding(needle, haystack, start);
        }
    }
}

/// Whether `needle` stands in `haystack` at index `at`.
fn matches_at(haystack: &[u8], needle: &[u8], at: usize) -> (r: bool)
    requires
        at + needle@.len() <= haystack@.len(),
    ensures
        r == occurs_at(needle@, haystack@, at as int),
{
    let width: usize = needle.len();
    let total: usize = haystack.len();
    let mut j: usize = 0;
    while j < width
        invariant
            width == needle@.len(),
            total == haystack@.len(),
            j <= width,
            at + width <= total,
            forall|k: int| 0 <= k < j ==> haystack@[at + k] == needle@[k],
        decreases width - j,
    {
        if haystack[at + j] != needle[j] {
            proof {
                let window = haystack@.subrange(at as int, at + width);
                assert(window[j as int] == haystack@[at + j]);
            }
            return false;
        }
        j += 1;
    }
    proof {
        assert(haystack@.subrange(at as int, at + width) =~= needle@);
    }
    true
}

/// Whether the bytes of `needle` occur in `haystack` as one contiguous run.
fn contains_bytes(haystack: &[u8], needle: &[u8]) -> (r: bool)
    requires
        needle@.len() > 0,
    ensures
        r == occurs_in(needle@, haystack@),
{
    let width: usize = needle.len();
    let total: usize = haystack.len();
    if width > total {
        return false;
    }
    let last: usize = total - width;
    let mut at: usize = 0;
    while at <= last
        invariant
            width == needle@.len(),
            total == haystack@.len(),
            0 < width <= total,
            last == total - width,
            at <= last + 1,
            forall|i: int| 0 <= i < at ==> !occurs_at(needle@, haystack@, i),
        decreases last + 1 - at,
    {
        if matches_at(haystack, needle, at) {
            return true;
        }
        at += 1;
    }
    false
}

/// Tells whether agent output carries the completion marker.
///
/// An empty marker is never found. Any other marker is found when it occurs
/// in `output` as written: no case folding, no trimming, no normalisation.
pub fn check_completion_promise(output: &str, completion_promise: &str) -> (found: bool)
    ensures
        found == promise_detected(output@, completion_promise@),
        completion_promise@.len() == 0 ==> !found,
        completion_promise@.len() > 0 ==> found == occurs_in(completion_promise@, output@),
{
    if completion_promise.is_empty() {
        return false;
    }
    let found = contains_bytes(output.as_bytes(), completion_promise.as_bytes());
    proof {
        lemma_utf8_search_is_text_search(completion_promise@, output@);
    }
    found
}

} // verus!
