//! The answer of the completion service as a finite stream of events.

use gemini_rust::{ClientError, GenerationResponse};
use vstd::prelude::*;

verus! {

/// `GenerationResponse` of gemini_rust: one item of a streamed answer, as
/// the service's client hands it out. Nothing is known of what it holds.
#[verifier::external_type_specification]
#[verifier::external_body]
pub struct ExGenerationResponse(gemini_rust::GenerationResponse);

/// `ClientError` of gemini_rust: the error with which a request or a
/// stream fails. Nothing is known of what it holds.
#[verifier::external_type_specification]
#[verifier::external_body]
pub struct ExClientError(gemini_rust::ClientError);

/// The line printed while the request is on its way.
pub const WAITING_NOTICE: &'static str = "Waiting for clanker...";

/// What a streamed answer yields next. A stream yields any number of chunks
/// and then ends or fails; it is read once and cannot be resumed.
#[derive(Debug)]
pub enum StreamEvent {
    /// The next piece of text, cut wherever the service cut it.
    Chunk(String),
    /// The answer is complete.
    End,
    /// The request or the connection failed.
    Failed,
}

/// The text that `GenerationResponse::text` of gemini_rust gives for an
/// item: the text of the first part of the item's first candidate, and the
/// empty text where the item has no such part or the part is not text.
pub uninterp spec fn text_of_response(response: GenerationResponse) -> Seq<char>;

/// Calls `GenerationResponse::text` of gemini_rust, which reads the text
/// out of the item and depends on nothing else. The contract claims only
/// that the result is that text, under the name [`text_of_response`].
#[verifier::external_body]
fn response_text(response: &GenerationResponse) -> (text: String)
    ensures
        text@ == text_of_response(*response),
{
    response.text()
}

/// Turns what polling the stream gave into the event it stands for: an item
/// is a chunk with the item's text, no item is the end of the answer, and an
/// error is a failure.
pub fn stream_event(polled: &Result<Option<GenerationResponse>, ClientError>) -> (event:
    StreamEvent)
    ensures
        polled matches Ok(Some(response)) ==> event matches StreamEvent::Chunk(text) && text@
            == text_of_response(*response),
        polled matches Ok(Some(_)) <==> event is Chunk,
        polled matches Ok(None) <==> event is End,
        polled is Err <==> event is Failed,
{
    match polled {
        Ok(Some(response)) => StreamEvent::Chunk(response_text(response)),
        Ok(None) => StreamEvent::End,
        Err(_) => StreamEvent::Failed,
    }
}

} // verus!
