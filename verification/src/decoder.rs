//! Decoding a stream of newline-delimited JSON documents into events.
//!
//! Every complete line is read as one response of the backend. A blank line
//! or a line that is not such a response is passed over. A response with text
//! gives a content event; a response whose `done` flag is set gives the
//! terminal event and ends the decoding. A stream that ends without such a
//! response is closed by `finish`, which gives the terminal event then.

use crate::chat::{decode_response, response_of, ChatResponseView};
use crate::json::{parse, parsed};
use crate::lines::{
    complete_lines, lemma_no_newline, lemma_remainder_open, lemma_split_append, line_views,
    remainder, take_lines, NEWLINE,
};
use vstd::prelude::*;

verus! {

/// One event of a decoded stream.
#[derive(Debug, Clone, PartialEq, Eq)]
pub struct StreamEvent {
    pub content_fragment: String,
    pub is_final: bool,
}

/// The mathematical value of a `StreamEvent`.
pub struct EventView {
    pub content: Seq<char>,
    pub is_final: bool,
}

impl View for StreamEvent {
    type V = EventView;

    open spec fn view(&self) -> EventView {
        EventView { content: self.content_fragment@, is_final: self.is_final }
    }
}

/// The values of a sequence of events.
pub open spec fn event_views(events: Seq<StreamEvent>) -> Seq<EventView> {
    Seq::new(events.len(), |i: int| events[i]@)
}

/// The event that ends a stream: no content, and final.
pub open spec fn terminal_event() -> EventView {
    EventView { content: Seq::empty(), is_final: true }
}

/// The events of a sequence of lines, and whether the sequence ended the
/// stream.
pub struct Decoded {
    pub events: Seq<EventView>,
    pub done: bool,
}

/// The events that one response gives.
pub open spec fn response_events(response: ChatResponseView) -> Decoded {
    let content = match response.message {
        Some(m) => if m.content.len() > 0 {
            seq![EventView { content: m.content, is_final: false }]
        } else {
            Seq::empty()
        },
        None => Seq::empty(),
    };
    if response.done {
        Decoded { events: content.push(terminal_event()), done: true }
    } else {
        Decoded { events: content, done: false }
    }
}

/// The response that a line holds, if it holds one: a line of more than one
/// byte that is a JSON document of the expected shape.
pub open spec fn line_response(line: Seq<u8>) -> Option<ChatResponseView> {
    if line.len() <= 1 {
        None
    } else {
        match parsed(line) {
            Some(doc) => response_of(doc),
            None => None,
        }
    }
}

/// The events that one line gives.
pub open spec fn line_events(line: Seq<u8>) -> Decoded {
    match line_response(line) {
        Some(response) => response_events(response),
        None => Decoded { events: Seq::empty(), done: false },
    }
}

/// The events that a sequence of lines gives: those of each line in turn, up
/// to and including the first line that ends the stream.
pub open spec fn lines_events(lines: Seq<Seq<u8>>) -> Decoded
    decreases lines.len(),
{
    if lines.len() == 0 {
        Decoded { events: Seq::empty(), done: false }
    } else {
        let first = line_events(lines[0]);
        if first.done {
            first
        } else {
            let rest = lines_events(lines.drop_first());
            Decoded { events: first.events + rest.events, done: rest.done }
        }
    }
}

/// The events of a whole stream: those of its complete lines, closed by the
/// terminal event where no line ended the stream.
pub open spec fn decoded(stream: Seq<u8>) -> Seq<EventView> {
    let d = lines_events(complete_lines(stream));
    if d.done {
        d.events
    } else {
        d.events.push(terminal_event())
    }
}

/// The state of a decoder: what it holds of an unfinished line, and whether
/// it has given the terminal event.
pub struct DecoderState {
    pub buffer: Seq<u8>,
    pub finished: bool,
}

/// A state together with the events that led to it.
pub struct Step {
    pub state: DecoderState,
    pub events: Seq<EventView>,
}

/// The state in which a decoder starts.
pub open spec fn initial_state() -> DecoderState {
    DecoderState { buffer: Seq::empty(), finished: false }
}

/// What one chunk does to a decoder.
pub open spec fn feed_step(state: DecoderState, chunk: Seq<u8>) -> Step {
    if state.finished {
        Step { state, events: Seq::empty() }
    } else {
        let whole = state.buffer + chunk;
        let d = lines_events(complete_lines(whole));
        if d.done {
            Step {
                state: DecoderState { buffer: Seq::empty(), finished: true },
                events: d.events,
            }
        } else {
            Step {
                state: DecoderState { buffer: remainder(whole), finished: false },
                events: d.events,
            }
        }
    }
}

/// What the end of the stream does to a decoder.
pub open spec fn finish_step(state: DecoderState) -> Step {
    if state.finished {
        Step { state, events: Seq::empty() }
    } else {
        Step {
            state: DecoderState { buffer: Seq::empty(), finished: true },
            events: seq![terminal_event()],
        }
    }
}

/// What a sequence of chunks does to a decoder, fed one after the other.
pub open spec fn feed_all(state: DecoderState, chunks: Seq<Seq<u8>>) -> Step
    decreases chunks.len(),
{
    if chunks.len() == 0 {
        Step { state, events: Seq::empty() }
    } else {
        let first = feed_step(state, chunks[0]);
        let rest = feed_all(first.state, chunks.drop_first());
        Step { state: rest.state, events: first.events + rest.events }
    }
}

/// The bytes of a sequence of chunks, one after the other.
pub open spec fn joined_chunks(chunks: Seq<Seq<u8>>) -> Seq<u8>
    decreases chunks.len(),
{
    if chunks.len() == 0 {
        Seq::empty()
    } else {
        chunks[0] + joined_chunks(chunks.drop_first())
    }
}

/// Every event that a fresh decoder gives for a stream that arrives as
/// `chunks` and then ends.
pub open spec fn stream_events(chunks: Seq<Seq<u8>>) -> Seq<EventView> {
    let fed = feed_all(initial_state(), chunks);
    fed.events + finish_step(fed.state).events
}

/// The events of lines that end the stream are not changed by lines behind
/// them; otherwise the events of the lines behind them follow.
pub proof fn lemma_lines_events_append(a: Seq<Seq<u8>>, b: Seq<Seq<u8>>)
    ensures
        lines_events(a).done ==> lines_events(a + b) == lines_events(a),
        !lines_events(a).done ==> lines_events(a + b) == (Decoded {
            events: lines_events(a).events + lines_events(b).events,
            done: lines_events(b).done,
        }),
    decreases a.len(),
{
    if a.len() > 0 {
        let ab = a + b;
        assert(ab.drop_first() == a.drop_first() + b);
        let first = line_events(a[0]);
        if !first.done {
            lemma_lines_events_append(a.drop_first(), b);
            if !lines_events(a.drop_first()).done {
                assert(first.events + (lines_events(a.drop_first()).events + lines_events(
                    b,
                ).events) == (first.events + lines_events(a.drop_first()).events) + lines_events(
                    b,
                ).events);
            }
        }
    }
}

/// A decoder that has finished gives nothing more, whatever it is fed.
pub proof fn lemma_finished_stays(state: DecoderState, chunks: Seq<Seq<u8>>)
    requires
        state.finished,
    ensures
        feed_all(state, chunks) == (Step { state, events: Seq::empty() }),
    decreases chunks.len(),
{
    if chunks.len() > 0 {
        lemma_finished_stays(state, chunks.drop_first());
    }
}

/// Feeding chunks to a decoder that holds an unfinished line gives the events
/// of that line followed by all the chunks, read as one piece.
pub proof fn lemma_feed_all(buffer: Seq<u8>, chunks: Seq<Seq<u8>>)
    requires
        forall|i: int| 0 <= i < buffer.len() ==> buffer[i] != NEWLINE,
    ensures
        ({
            let fed = feed_all(DecoderState { buffer, finished: false }, chunks);
            let whole = buffer + joined_chunks(chunks);
            let d = lines_events(complete_lines(whole));
            &&& fed.events == d.events
            &&& fed.state.finished == d.done
            &&& !d.done ==> fed.state.buffer == remainder(whole)
        }),
    decreases chunks.len(),
{
    let state = DecoderState { buffer, finished: false };
    if chunks.len() == 0 {
        lemma_no_newline(buffer);
    } else {
        let rest = chunks.drop_first();
        let whole = buffer + chunks[0];
        let all = buffer + joined_chunks(chunks);
        assert(all == whole + joined_chunks(rest));
        lemma_split_append(whole, joined_chunks(rest));
        let head = complete_lines(whole);
        let tail = complete_lines(remainder(whole) + joined_chunks(rest));
        lemma_lines_events_append(head, tail);
        let first = feed_step(state, chunks[0]);
        if lines_events(head).done {
            lemma_finished_stays(first.state, rest);
        } else {
            lemma_remainder_open(whole);
            lemma_feed_all(remainder(whole), rest);
        }
    }
}

/// However a stream is cut into chunks, a fresh decoder gives the events of
/// the stream read as one piece.
pub proof fn lemma_chunking_invariance(chunks: Seq<Seq<u8>>)
    ensures
        stream_events(chunks) == decoded(joined_chunks(chunks)),
{
    lemma_feed_all(Seq::empty(), chunks);
}

/// Two ways of cutting the same bytes into chunks give the same events.
pub proof fn lemma_same_bytes_same_events(first: Seq<Seq<u8>>, second: Seq<Seq<u8>>)
    requires
        joined_chunks(first) == joined_chunks(second),
    ensures
        stream_events(first) == stream_events(second),
{
    lemma_chunking_invariance(first);
    lemma_chunking_invariance(second);
}

/// The events of lines hold no final event but the last one, and that one
/// only where the lines ended the stream.
pub proof fn lemma_lines_events_final(lines: Seq<Seq<u8>>)
    ensures
        ({
            let d = lines_events(lines);
            &&& d.done ==> d.events.len() >= 1 && d.events.last().is_final
            &&& forall|i: int| 0 <= i < d.events.len() - 1 ==> !d.events[i].is_final
            &&& !d.done ==> forall|i: int| 0 <= i < d.events.len() ==> !d.events[i].is_final
        }),
    decreases lines.len(),
{
    if lines.len() > 0 {
        let first = line_events(lines[0]);
        if !first.done {
            lemma_lines_events_final(lines.drop_first());
        }
    }
}

/// Every stream, whether or not a line of it ends it, gives exactly one final
/// event, and that event is the last one.
pub proof fn lemma_one_terminal_event(stream: Seq<u8>)
    ensures
        decoded(stream).len() >= 1,
        decoded(stream).last().is_final,
        forall|i: int| 0 <= i < decoded(stream).len() - 1 ==> !decoded(stream)[i].is_final,
{
    lemma_lines_events_final(complete_lines(stream));
}

/// A stream none of whose lines ends it gives the events of its lines and
/// then the terminal event.
pub proof fn lemma_open_stream_closed(stream: Seq<u8>)
    requires
        !lines_events(complete_lines(stream)).done,
    ensures
        decoded(stream) == lines_events(complete_lines(stream)).events.push(terminal_event()),
        forall|i: int| 0 <= i < decoded(stream).len() - 1 ==> !decoded(stream)[i].is_final,
{
    lemma_one_terminal_event(stream);
}

/// A line that holds no response changes nothing: the lines before it and
/// behind it give the events that they give without it.
pub proof fn lemma_malformed_line_skipped(before: Seq<Seq<u8>>, line: Seq<u8>, after: Seq<Seq<u8>>)
    requires
        line_response(line).is_none(),
    ensures
        lines_events(before + seq![line] + after) == lines_events(before + after),
{
    let middle = seq![line] + after;
    assert(middle.drop_first() == after);
    lemma_lines_events_append(before, middle);
    lemma_lines_events_append(before, after);
    assert(before + seq![line] + after == before + middle);
}

/// Decodes one line, appends its events to `events` and says whether the line
/// ended the stream.
pub fn decode_line(line: &[u8], events: &mut Vec<StreamEvent>) -> (done: bool)
    ensures
        event_views(final(events)@) == event_views(old(events)@) + line_events(line@).events,
        done == line_events(line@).done,
{
    if line.len() <= 1 {
        return false;
    }
    let doc = match parse(line) {
        Some(doc) => doc,
        None => {
            return false;
        },
    };
    let response = match decode_response(&doc) {
        Some(response) => response,
        None => {
            return false;
        },
    };
    match response.message {
        Some(message) => {
            if !message.content.as_str().is_empty() {
                let event = StreamEvent { content_fragment: message.content, is_final: false };
                events.push(event);
            }
        },
        None => {},
    }
    if response.done {
        let event = StreamEvent { content_fragment: String::new(), is_final: true };
        events.push(event);
        return true;
    }
    false
}

/// A decoder for one stream. It is fed the chunks of the stream in the order
/// in which they arrive, and closed when the stream ends.
pub struct StreamDecoder {
    buffer: Vec<u8>,
    finished: bool,
}

impl View for StreamDecoder {
    type V = DecoderState;

    closed spec fn view(&self) -> DecoderState {
        DecoderState { buffer: self.buffer@, finished: self.finished }
    }
}

impl StreamDecoder {
    /// A decoder that has seen nothing yet.
    pub fn new() -> (decoder: StreamDecoder)
        ensures
            decoder@ == initial_state(),
    {
        StreamDecoder { buffer: Vec::new(), finished: false }
    }

    /// Whether the terminal event has been given.
    pub fn is_finished(&self) -> (finished: bool)
        ensures
            finished == self@.finished,
    {
        self.finished
    }

    /// Takes the next chunk of the stream and returns the events of the lines
    /// that it completes. Once the terminal event has been given, nothing is
    /// read any more.
    pub fn feed(&mut self, chunk: &[u8]) -> (events: Vec<StreamEvent>)
        ensures
            final(self)@ == feed_step(old(self)@, chunk@).state,
            event_views(events@) == feed_step(old(self)@, chunk@).events,
    {
        let mut events: Vec<StreamEvent> = Vec::new();
        if self.finished {
            return events;
        }
        let lines = take_lines(&mut self.buffer, chunk);
        let ghost all = line_views(lines@);
        let mut i: usize = 0;
        assert(all.subrange(0, all.len() as int) == all);
        while i < lines.len()
            invariant
                i <= lines.len(),
                all == line_views(lines@),
                all == complete_lines(old(self).buffer@ + chunk@),
                !old(self).finished,
                !self.finished,
                self.buffer@ == remainder(old(self).buffer@ + chunk@),
                lines_events(all).events == event_views(events@) + lines_events(
                    all.subrange(i as int, all.len() as int),
                ).events,
                lines_events(all).done == lines_events(
                    all.subrange(i as int, all.len() as int),
                ).done,
            decreases lines.len() - i,
        {
            let ghost tail = all.subrange(i as int, all.len() as int);
            assert(tail.drop_first() == all.subrange(i + 1, all.len() as int));
            let done = decode_line(lines[i].as_slice(), &mut events);
            if done {
                self.finished = true;
                self.buffer = Vec::new();
                return events;
            }
            i += 1;
        }
        events
    }

    /// Closes the decoder when the stream has ended. Where no line has ended
    /// the stream, this gives the terminal event; a line that was still open
    /// is dropped.
    pub fn finish(&mut self) -> (events: Vec<StreamEvent>)
        ensures
            final(self)@ == finish_step(old(self)@).state,
            event_views(events@) == finish_step(old(self)@).events,
    {
        let mut events: Vec<StreamEvent> = Vec::new();
        if self.finished {
            return events;
        }
        self.finished = true;
        self.buffer = Vec::new();
        events.push(StreamEvent { content_fragment: String::new(), is_final: true });
        events
    }
}

} // verus!
