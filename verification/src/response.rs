use vstd::prelude::*;

use crate::limits::MAX_RESPONSE_BYTES;
use crate::wire::Failure;

verus! {

/// What a response reports besides the schema version and request
/// identifier: the handler's data, or a failure.
#[derive(Debug)]
pub enum ResponseBody {
    Data(serde_json::Value),
    Error(Failure),
}

/// One response, before it is encoded as a JSON line.
#[derive(Debug)]
pub struct Response {
    pub request_id: String,
    pub body: ResponseBody,
}

/// The response that carries `result` for the request `request_id`.
pub fn response_for(request_id: String, result: Result<serde_json::Value, Failure>) -> (response:
    Response)
    ensures
        response.request_id@ == request_id@,
        match result {
            Ok(data) => response.body matches ResponseBody::Data(d) && d == data,
            Err(failure) => response.body matches ResponseBody::Error(f) && f.class == failure.class
                && f.message@ == failure.message@,
        },
{
    match result {
        Ok(data) => Response { request_id, body: ResponseBody::Data(data) },
        Err(failure) => Response { request_id, body: ResponseBody::Error(failure) },
    }
}

/// The response sent in place of one whose encoding is too large.
pub fn oversized_response(request_id: String) -> (response: Response)
    ensures
        response.request_id@ == request_id@,
        response.body matches ResponseBody::Error(f) && f.class@ == "response_too_large"@
            && f.message@ == "response exceeds 64 KiB"@,
{
    Response {
        request_id,
        body: ResponseBody::Error(
            Failure::new("response_too_large", "response exceeds 64 KiB".to_owned()),
        ),
    }
}

/// The line sent for a response encoded as `encoded`: the encoding itself when
/// it is shorter than `MAX_RESPONSE_BYTES`, else the encoding of the oversized
/// response; then a newline.
pub open spec fn framed(encoded: Seq<u8>, oversized: Seq<u8>) -> Seq<u8> {
    (if encoded.len() < MAX_RESPONSE_BYTES {
        encoded
    } else {
        oversized
    }).push(10u8)
}

/// Chooses between a response's encoding and the encoding of its oversized
/// replacement, and ends the line.
pub fn frame_response(encoded: Vec<u8>, oversized: Vec<u8>) -> (line: Vec<u8>)
    ensures
        line@ == framed(encoded@, oversized@),
{
    let mut line = if encoded.len() < MAX_RESPONSE_BYTES {
        encoded
    } else {
        oversized
    };
    line.push(10u8);
    line
}

/// Every line sent is newline-terminated and, as long as the replacement
/// itself fits, no longer than `MAX_RESPONSE_BYTES` bytes, newline included.
pub proof fn law_response_lines_are_bounded(encoded: Seq<u8>, oversized: Seq<u8>)
    requires
        oversized.len() < MAX_RESPONSE_BYTES,
    ensures
        framed(encoded, oversized).len() <= MAX_RESPONSE_BYTES,
        framed(encoded, oversized).last() == 10u8,
{
}

/// An encoding under 64 KiB is sent unchanged; one of 64 KiB or more is
/// always replaced, whole, by the oversized response. Either way one newline
/// follows.
pub proof fn law_responses_are_kept_or_replaced(encoded: Seq<u8>, oversized: Seq<u8>)
    ensures
        encoded.len() < 65536 ==> framed(encoded, oversized) == encoded.push(10u8),
        encoded.len() >= 65536 ==> framed(encoded, oversized) == oversized.push(10u8),
{
}

/// A response that fits is sent unchanged, only followed by a newline.
pub proof fn law_fitting_responses_pass_unchanged(encoded: Seq<u8>, oversized: Seq<u8>)
    requires
        encoded.len() < MAX_RESPONSE_BYTES,
    ensures
        framed(encoded, oversized).drop_last() == encoded,
{
    assert(framed(encoded, oversized).drop_last() =~= encoded);
}

} // verus!
