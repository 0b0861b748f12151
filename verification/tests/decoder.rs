use quickask::decoder::{decode_line, StreamDecoder, StreamEvent};
use quickask::stream::{channel_of, on_chunk, open_stream, stream_opened};

fn token(text: &str) -> StreamEvent {
    StreamEvent { content_fragment: text.to_string(), is_final: false }
}

fn terminal() -> StreamEvent {
    StreamEvent { content_fragment: String::new(), is_final: true }
}

fn decode_in_chunks(chunks: &[&[u8]]) -> Vec<StreamEvent> {
    let mut decoder = StreamDecoder::new();
    let mut events = Vec::new();
    for chunk in chunks {
        events.extend(decoder.feed(chunk));
    }
    events.extend(decoder.finish());
    events
}

const STREAM: &[u8] = b"{\"message\":{\"role\":\"assistant\",\"content\":\"Hel\"},\"done\":false}\n{\"message\":{\"role\":\"assistant\",\"content\":\"lo\"},\"done\":false}\n\n{\"message\":{\"role\":\"assistant\",\"content\":\"\"},\"done\":true}\n";

#[test]
fn whole_stream_gives_tokens_then_terminal() {
    let events = decode_in_chunks(&[STREAM]);
    assert_eq!(events, vec![token("Hel"), token("lo"), terminal()]);
}

#[test]
fn chunk_boundaries_do_not_matter() {
    let whole = decode_in_chunks(&[STREAM]);
    for cut in 0..=STREAM.len() {
        let (head, tail) = STREAM.split_at(cut);
        assert_eq!(decode_in_chunks(&[head, tail]), whole);
    }
    let mut decoder = StreamDecoder::new();
    let mut events = Vec::new();
    for byte in STREAM {
        events.extend(decoder.feed(&[*byte]));
    }
    events.extend(decoder.finish());
    assert_eq!(events, whole);
}

#[test]
fn stream_without_done_ends_with_one_terminal() {
    let stream: &[u8] = b"{\"message\":{\"role\":\"assistant\",\"content\":\"a\"},\"done\":false}\n{\"message\":{\"role\":\"assistant\",\"content\":\"b\"},\"done\":false}\n";
    let mut decoder = StreamDecoder::new();
    let fed = decoder.feed(stream);
    assert_eq!(fed, vec![token("a"), token("b")]);
    assert!(!decoder.is_finished());
    assert_eq!(decoder.finish(), vec![terminal()]);
    assert!(decoder.is_finished());
    assert_eq!(decoder.finish(), Vec::<StreamEvent>::new());
    assert_eq!(decoder.feed(stream), Vec::<StreamEvent>::new());
}

#[test]
fn empty_stream_gives_terminal_only() {
    assert_eq!(decode_in_chunks(&[]), vec![terminal()]);
    assert_eq!(decode_in_chunks(&[b""]), vec![terminal()]);
}

#[test]
fn malformed_lines_are_passed_over() {
    let stream: &[u8] = b"not json\n{\"message\":{\"role\":\"assistant\",\"content\":\"a\"},\"done\":false}\n{\"done\":\"yes\"}\n{\"message\":{\"content\":\"no role\"},\"done\":false}\n[1,2]\n{\"message\":{\"role\":\"assistant\",\"content\":\"b\"},\"done\":false}\n";
    assert_eq!(decode_in_chunks(&[stream]), vec![token("a"), token("b"), terminal()]);
}

#[test]
fn nothing_is_read_after_done() {
    let stream: &[u8] = b"{\"message\":{\"role\":\"assistant\",\"content\":\"last\"},\"done\":true}\n{\"message\":{\"role\":\"assistant\",\"content\":\"late\"},\"done\":false}\n";
    let mut decoder = StreamDecoder::new();
    assert_eq!(decoder.feed(stream), vec![token("last"), terminal()]);
    assert!(decoder.is_finished());
    assert_eq!(decoder.feed(stream), Vec::<StreamEvent>::new());
    assert_eq!(decoder.finish(), Vec::<StreamEvent>::new());
}

#[test]
fn open_line_at_end_is_dropped() {
    let stream: &[u8] = b"{\"message\":{\"role\":\"assistant\",\"content\":\"a\"},\"done\":false}\n{\"message\":{\"role\":\"assistant\",\"content\":\"cut\"},\"done\":true}";
    assert_eq!(decode_in_chunks(&[stream]), vec![token("a"), terminal()]);
}

#[test]
fn done_without_message_gives_terminal() {
    assert_eq!(decode_in_chunks(&[b"{\"done\":true}\n"]), vec![terminal()]);
    assert_eq!(decode_in_chunks(&[b"{\"message\":null,\"done\":true}\r\n"]), vec![terminal()]);
}

#[test]
fn decode_line_appends_and_reports_done() {
    let mut events = vec![token("before")];
    let done = decode_line(b"{\"message\":{\"role\":\"assistant\",\"content\":\"x\"},\"done\":true}\n", &mut events);
    assert!(done);
    assert_eq!(events, vec![token("before"), token("x"), terminal()]);
    let mut events = Vec::new();
    assert!(!decode_line(b"\n", &mut events));
    assert!(!decode_line(b"{\n", &mut events));
    assert!(events.is_empty());
}

#[test]
fn channels_tell_tokens_from_the_end() {
    assert_eq!(channel_of(&token("a")), "ollama://token");
    assert_eq!(channel_of(&terminal()), "ollama://done");
}

#[test]
fn broken_stream_is_reported() {
    let mut decoder = StreamDecoder::new();
    let fed = on_chunk(&mut decoder, Ok(b"{\"message\":{\"role\":\"assistant\",\"content\":\"a\"},\"done\":false}\n".to_vec()));
    assert_eq!(fed, Ok(vec![token("a")]));
    let broken = on_chunk(&mut decoder, Err("connection reset".to_string()));
    assert_eq!(broken, Err("Stream error: connection reset".to_string()));
    assert!(!decoder.is_finished());
}

#[test]
fn failed_status_opens_no_stream() {
    let mut decoder = open_stream(200, "200 OK").unwrap();
    assert!(!decoder.is_finished());
    assert_eq!(decoder.finish(), vec![terminal()]);
    assert!(open_stream(204, "204 No Content").is_ok());
    assert_eq!(
        open_stream(500, "500 Internal Server Error").err(),
        Some("Ollama API error: 500 Internal Server Error".to_string())
    );
    assert_eq!(open_stream(404, "404 Not Found").err(), Some("Ollama API error: 404 Not Found".to_string()));
    assert_eq!(open_stream(199, "199").err(), Some("Ollama API error: 199".to_string()));
    assert_eq!(open_stream(300, "300").err(), Some("Ollama API error: 300".to_string()));
}

#[test]
fn stream_is_opened_from_what_the_request_brought() {
    assert!(stream_opened(Ok((200, "200 OK".to_string()))).is_ok());
    assert_eq!(
        stream_opened(Ok((503, "503 Service Unavailable".to_string()))).err(),
        Some("Ollama API error: 503 Service Unavailable".to_string())
    );
    assert_eq!(
        stream_opened(Err("refused".to_string())).err(),
        Some("Failed to connect to Ollama: refused. Make sure Ollama is running.".to_string())
    );
}
