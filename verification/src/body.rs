use vstd::prelude::*;
use vstd::utf8::{decode_utf8, encode_utf8, encode_utf8_decode_utf8, encode_utf8_valid_utf8,
    valid_utf8};
use crate::error::HttpError;

verus! {

/// A fully aggregated response body: the bytes the transport delivered,
/// drained to completion. Interpreting the body consumes it, so the bytes
/// are read at most once.
pub struct AggregatedBody {
    bytes: Vec<u8>,
}

impl View for AggregatedBody {
    type V = Seq<u8>;

    closed spec fn view(&self) -> Seq<u8> {
        self.bytes@
    }
}

impl AggregatedBody {
    /// Wraps bytes drained from a response body stream.
    pub fn new(bytes: Vec<u8>) -> (r: AggregatedBody)
        ensures
            r@ == bytes@,
    {
        AggregatedBody { bytes }
    }

    /// Hands the raw bytes back, consuming the body.
    pub fn into_bytes(self) -> (r: Vec<u8>)
        ensures
            r@ == self@,
    {
        self.bytes
    }
}

/// Relies on String::from_utf8: it succeeds exactly on valid UTF-8 input
/// and hands back the text that the bytes encode.
#[verifier::external_body]
pub(crate) fn string_from_utf8(bytes: Vec<u8>) -> (r: Option<String>)
    ensures
        r is Some <==> valid_utf8(bytes@),
        r is Some ==> r->Some_0@ == decode_utf8(bytes@),
{
    match String::from_utf8(bytes) {
        Ok(s) => Some(s),
        Err(_) => None,
    }
}

/// Relies on String::push_str: it appends the given text.
#[verifier::external_body]
pub(crate) fn append_str(s: &mut String, t: &str)
    ensures
        final(s)@ == old(s)@ + t@,
{
    s.push_str(t)
}

/// Decodes an aggregated body as text: the read-body-as-text
/// interpretation of a finished response.
pub fn read_body_as_text<E>(body: AggregatedBody) -> (r: Result<String, HttpError<E>>)
    ensures
        r is Ok <==> valid_utf8(body@),
        r is Ok ==> r->Ok_0@ == decode_utf8(body@),
        r is Err ==> r == Err::<String, HttpError<E>>(HttpError::InvalidUTF8),
{
    match string_from_utf8(body.into_bytes()) {
        Some(text) => Ok(text),
        None => Err(HttpError::InvalidUTF8),
    }
}

/// Law: a body whose bytes are the UTF-8 encoding of a text decodes to
/// exactly that text. With the contract of `read_body_as_text`, a
/// transport that delivers `encode_utf8(s)` as the body yields `Ok`, and
/// the text handed back is `s`.
pub proof fn lemma_read_round_trip(s: Seq<char>)
    ensures
        valid_utf8(encode_utf8(s)),
        decode_utf8(encode_utf8(s)) == s,
{
    encode_utf8_valid_utf8(s);
    encode_utf8_decode_utf8(s);
}

} // verus!
