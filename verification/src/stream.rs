//! A streamed chat: the request that opens it, and what each piece of the
//! answer gives.

use crate::chat::ChatMessage;
use crate::conversation::{build_stream_request, message_views, stream_request};
use crate::decoder::{
    event_views, feed_step, initial_state, EventView, StreamDecoder, StreamEvent,
};
use crate::orchestrator::{
    connect_failure, connect_failure_text, status_failure, status_failure_text,
};
use crate::transport::{is_success, success};
use crate::json::{render, rendered};
use crate::text::joined;
use vstd::prelude::*;

verus! {

/// The body that opens a streamed chat.
pub fn stream_request_body(model: &str, messages: &Vec<ChatMessage>) -> (body: String)
    ensures
        body@ == rendered(stream_request(model@, message_views(messages@))),
{
    let request = build_stream_request(model, messages);
    render(&request)
}

/// Opens the decoding of a streamed answer once its status is known. A status
/// that reports a failure gives no decoder but the message that names the
/// status; nothing of such an answer is decoded.
pub fn open_stream(status: u16, status_text: &str) -> (r: Result<StreamDecoder, String>)
    ensures
        match r {
            Ok(decoder) => success(status) && decoder@ == initial_state(),
            Err(message) => !success(status) && message@ == status_failure(status_text@),
        },
{
    if is_success(status) {
        Ok(StreamDecoder::new())
    } else {
        Err(status_failure_text(status_text))
    }
}

/// Opens the decoding of a streamed answer from what the request for it has
/// brought: the status with its text, or why the backend was not reached.
pub fn stream_opened(connection: Result<(u16, String), String>) -> (r: Result<
    StreamDecoder,
    String,
>)
    ensures
        match (connection, r) {
            (Err(cause), Err(message)) => message@ == connect_failure(cause@, false),
            (Ok(answer), Ok(decoder)) => success(answer.0) && decoder@ == initial_state(),
            (Ok(answer), Err(message)) => !success(answer.0) && message@ == status_failure(
                answer.1@,
            ),
            _ => false,
        },
{
    match connection {
        Err(cause) => Err(connect_failure_text(cause.as_str(), false)),
        Ok(answer) => open_stream(answer.0, answer.1.as_str()),
    }
}

/// The message for a stream that broke.
pub open spec fn stream_failure(cause: Seq<char>) -> Seq<char> {
    "Stream error: "@ + cause
}

/// The name under which an event is passed on: one name for content, one for
/// the end.
pub open spec fn channel(event: EventView) -> Seq<char> {
    if event.is_final {
        "ollama://done"@
    } else {
        "ollama://token"@
    }
}

/// The name under which an event is passed on.
pub fn channel_of(event: &StreamEvent) -> (name: &'static str)
    ensures
        name@ == channel(event@),
{
    if event.is_final {
        "ollama://done"
    } else {
        "ollama://token"
    }
}

/// Takes the next piece of a streamed answer. A chunk is fed to the decoder
/// and gives its events; a failure of the stream is passed on as a message
/// and leaves the decoder as it is.
pub fn on_chunk(decoder: &mut StreamDecoder, chunk: Result<Vec<u8>, String>) -> (r: Result<
    Vec<StreamEvent>,
    String,
>)
    ensures
        match (chunk, r) {
            (Ok(bytes), Ok(events)) => final(decoder)@ == feed_step(old(decoder)@, bytes@).state
                && event_views(events@) == feed_step(old(decoder)@, bytes@).events,
            (Err(cause), Err(message)) => final(decoder)@ == old(decoder)@ && message@
                == stream_failure(cause@),
            _ => false,
        },
{
    match chunk {
        Ok(bytes) => Ok(decoder.feed(bytes.as_slice())),
        Err(cause) => Err(joined("Stream error: ", cause.as_str())),
    }
}

} // verus!
