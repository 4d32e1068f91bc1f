//! From the bytes of a response body to a [`Response`]: the chunks are put
//! together, read as UTF-8, parsed as JSON and projected, and the first stage
//! that fails decides the failure.

use crate::failure::{Failure, Stage};
use crate::json::{json_parsed, parse};
use crate::response::{outcome, project, projected, Decoded, Response};
use std::string::FromUtf8Error;
use vstd::prelude::*;
use vstd::utf8::{decode_utf8, valid_utf8};

verus! {

/// The bytes of all chunks, in the order in which the chunks came.
pub open spec fn joined(chunks: Seq<Vec<u8>>) -> Seq<u8> {
    chunks.flat_map(|chunk: Vec<u8>| chunk@)
}

/// What the decoding of `body` must end in: the content of the response, or
/// the first stage that fails.
pub open spec fn decoded(body: Seq<u8>) -> Result<Decoded, Stage> {
    if !valid_utf8(body) {
        Err(Stage::Encoding)
    } else {
        match json_parsed(decode_utf8(body)) {
            None => Err(Stage::Parse),
            Some(doc) => projected(doc),
        }
    }
}

/// Calls `String::from_utf8`. Assumed, as std documents it: the call
/// succeeds exactly on valid UTF-8, and the string is then made of the very
/// bytes given.
#[verifier::external_body]
fn text_of_bytes(bytes: Vec<u8>) -> (r: Result<String, FromUtf8Error>)
    ensures
        match r {
            Ok(text) => valid_utf8(bytes@) && text@ == decode_utf8(bytes@),
            Err(_) => !valid_utf8(bytes@),
        },
{
    String::from_utf8(bytes)
}

/// Puts the chunks of a body together into one buffer, byte for byte and in
/// their order.
pub fn collect_body(chunks: &Vec<Vec<u8>>) -> (body: Vec<u8>)
    ensures
        body@ == joined(chunks@),
{
    let mut body: Vec<u8> = Vec::new();
    let mut i: usize = 0;
    while i < chunks.len()
        invariant
            i <= chunks.len(),
            body@ == joined(chunks@.take(i as int)),
        decreases chunks.len() - i,
    {
        let chunk = &chunks[i];
        let ghost before = body@;
        let mut j: usize = 0;
        while j < chunk.len()
            invariant
                j <= chunk.len(),
                body@ == before + chunk@.take(j as int),
            decreases chunk.len() - j,
        {
            body.push(chunk[j]);
            j += 1;
        }
        proof {
            assert(chunk@.take(j as int) == chunk@);
            chunks@.lemma_flat_map_take_append(|chunk: Vec<u8>| chunk@, i as int);
        }
        i += 1;
    }
    proof {
        assert(chunks@.take(i as int) == chunks@);
    }
    body
}

/// Decodes a response body. The bytes must be UTF-8, the text one JSON
/// document, and the document must name the address it answers for; the
/// first of these that fails is reported, and nothing is returned of a body
/// that fails.
pub fn decode(body: Vec<u8>) -> (r: Result<Response, Failure>)
    ensures
        outcome(r) == decoded(body@),
        !valid_utf8(body@) <==> (r matches Err(Failure::Encoding(_))),
        valid_utf8(body@) && json_parsed(decode_utf8(body@)) is None <==> (r matches Err(
            Failure::Parse(_),
        )),
        r matches Err(failure) ==> !(failure is Transport),
{
    match text_of_bytes(body) {
        Err(cause) => Err(Failure::from(cause)),
        Ok(text) => match parse(text.as_str()) {
            Err(cause) => Err(Failure::from(cause)),
            Ok(json) => project(&json),
        },
    }
}

} // verus!
