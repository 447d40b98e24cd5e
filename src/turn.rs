//! One request turn of a session: the request content is decoded as text,
//! handed to the handler, and the handler's text is the reply chunk.

use vstd::prelude::*;
use vstd::utf8::{decode_utf8, encode_utf8, valid_utf8};
use vstd::string::StrSliceExecFns;
use crate::handler::reverse;

verus! {

/// Why a single request turn failed. The session that served it stays open.
#[derive(Clone, Copy, Debug, PartialEq, Eq, Structural)]
pub enum TurnError {
    /// The request content is not valid UTF-8 text.
    Encoding,
}

/// What a turn answers for request content `content`: nothing for empty
/// content (a keep-alive turn), the UTF-8 bytes of the handler's reply for
/// valid text, and an encoding error otherwise.
pub open spec fn turn_reply(content: Seq<u8>) -> Result<Option<Seq<u8>>, TurnError> {
    if content.len() == 0 {
        Ok(None)
    } else if valid_utf8(content) {
        Ok(Some(encode_utf8(decode_utf8(content).reverse())))
    } else {
        Err(TurnError::Encoding)
    }
}

/// The model of a turn's executable result.
pub open spec fn reply_view(r: Result<Option<Vec<u8>>, TurnError>) -> Result<Option<Seq<u8>>, TurnError> {
    match r {
        Ok(Some(chunk)) => Ok(Some(chunk@)),
        Ok(None) => Ok(None),
        Err(e) => Err(e),
    }
}

/// Relies on capnp::text::Reader::to_str, which is `str::from_utf8` on the
/// reader's bytes: it succeeds exactly on valid UTF-8 and then reads the
/// characters those bytes encode.
#[verifier::external_body]
fn text_of<'a>(content: &'a [u8]) -> (r: Option<&'a str>)
    ensures
        r is Some <==> valid_utf8(content@),
        r matches Some(s) ==> s@ == decode_utf8(content@),
{
    capnp::text::Reader(content).to_str().ok()
}

/// Serves one request turn: empty content is a keep-alive turn with no
/// chunk and no handler call; other content must be text, and the chunk is
/// the handler's reply to it.
pub fn serve_turn(content: &[u8]) -> (r: Result<Option<Vec<u8>>, TurnError>)
    ensures
        reply_view(r) == turn_reply(content@),
{
    if content.len() == 0 {
        return Ok(None);
    }
    match text_of(content) {
        Some(text) => {
            let reply = reverse(text);
            let chunk = reply.as_str().as_bytes_vec();
            Ok(Some(chunk))
        },
        None => Err(TurnError::Encoding),
    }
}

/// An encoding failure is confined to its turn: content that is not text
/// fails that turn alone, and a later turn with text content on the same
/// session is answered with the handler's reply.
pub proof fn encoding_failure_is_per_turn(bad: Seq<u8>, next: Seq<u8>)
    requires
        bad.len() > 0,
        !valid_utf8(bad),
        next.len() > 0,
        valid_utf8(next),
    ensures
        turn_reply(bad) == Err::<Option<Seq<u8>>, TurnError>(TurnError::Encoding),
        turn_reply(next) == Ok::<Option<Seq<u8>>, TurnError>(
            Some(encode_utf8(decode_utf8(next).reverse())),
        ),
{
}

/// A keep-alive turn (empty content) succeeds with no chunk.
pub proof fn empty_turn_has_no_chunk()
    ensures
        turn_reply(Seq::empty()) == Ok::<Option<Seq<u8>>, TurnError>(None),
{
}

} // verus!
