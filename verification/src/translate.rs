//! Translation: the request for one translation, the reading of its answer,
//! and the rule that decides into which language a text is translated.

use crate::json::{
    array, parse_or_refuse, parsed, refusal, render, rendered, values_of, Json, JsonValue,
};
use crate::lines::{complete_lines, line_views, remainder, take_lines};
use crate::text::{blank, decimal, decimal_text, joined, owned, same_text, trim, trimmed};
use crate::tools::{percent_encoded, url_encoded};
use crate::transport::{is_success, success, HttpReply};
use vstd::prelude::*;
use vstd::slice::slice_subrange;
use vstd::string::*;
use vstd::utf8::encode_utf8;

verus! {

/// The outcome of one translation call: the translated text and the language
/// that the service detected in the input.
#[derive(Debug, Clone, PartialEq, Eq)]
pub struct TranslationResult {
    pub text: String,
    pub detected_language: String,
}

/// The mathematical value of a `TranslationResult`.
pub struct TranslationView {
    pub text: Seq<char>,
    pub detected_language: Seq<char>,
}

impl View for TranslationResult {
    type V = TranslationView;

    open spec fn view(&self) -> TranslationView {
        TranslationView { text: self.text@, detected_language: self.detected_language@ }
    }
}

/// What came back from the translation service.
pub type TranslationExchange = Result<HttpReply<String>, String>;

/// `rand::random` for a `u32`: any value. It draws from the generator of the
/// thread, which fails only where the system has no entropy to seed it.
#[verifier::external_body]
fn random_u32() -> (r: u32) {
    rand::random::<u32>()
}

/// The request number that is made of a random value: four digits.
pub open spec fn request_number(random: u32) -> u32 {
    (random % 9000 + 1000) as u32
}

/// Makes a request number of a random value.
pub fn request_number_of(random: u32) -> (number: u32)
    ensures
        number == request_number(random),
        1000 <= number < 10000,
{
    random % 9000 + 1000
}

/// A request number drawn at random.
pub fn fresh_request_number() -> (number: u32)
    ensures
        1000 <= number < 10000,
{
    request_number_of(random_u32())
}

/// One translation, ready to be sent: a POST to `url` with the content type
/// and the body.
#[derive(Debug, Clone, PartialEq, Eq)]
pub struct TranslationRequest {
    pub url: String,
    pub content_type: String,
    pub body: String,
}

/// The mathematical value of a `TranslationRequest`.
pub struct TranslationRequestView {
    pub url: Seq<char>,
    pub content_type: Seq<char>,
    pub body: Seq<char>,
}

impl View for TranslationRequest {
    type V = TranslationRequestView;

    open spec fn view(&self) -> TranslationRequestView {
        TranslationRequestView { url: self.url@, content_type: self.content_type@, body: self.body@ }
    }
}

/// The inner document of a translation request: the text, the source left to
/// the service, the target, and a flag.
pub open spec fn inner_call(text: Seq<char>, target: Seq<char>) -> JsonValue {
    JsonValue::Array(
        seq![
            JsonValue::Array(
                seq![
                    JsonValue::Text(text),
                    JsonValue::Text("auto"@),
                    JsonValue::Text(target),
                    JsonValue::Bool(true),
                ],
            ),
            JsonValue::Array(seq![JsonValue::Null]),
        ],
    )
}

/// The outer document of a translation request: the name of the call, the
/// inner document as text, and two fixed members.
pub open spec fn outer_call(text: Seq<char>, target: Seq<char>) -> JsonValue {
    JsonValue::Array(
        seq![
            JsonValue::Array(
                seq![
                    JsonValue::Array(
                        seq![
                            JsonValue::Text("MkEWBc"@),
                            JsonValue::Text(rendered(inner_call(text, target))),
                            JsonValue::Null,
                            JsonValue::Text("0"@),
                        ],
                    ),
                ],
            ),
        ],
    )
}

/// The request for the translation of `text` into `target_language`, under a
/// request number. The target is trimmed.
pub open spec fn translation_request(text: Seq<char>, target_language: Seq<char>, number: u32)
    -> TranslationRequestView {
    TranslationRequestView {
        url: "https://translate.google.com/_/TranslateWebserverUi/data/batchexecute?rpcids=MkEWBc&source-path=/&f.sid=&bl=&hl=en-US&soc-app=1&soc-platform=1&soc-device=1&_reqid="@
            + decimal(number as nat) + "&rt=c"@,
        content_type: "application/x-www-form-urlencoded;charset=UTF-8"@,
        body: "f.req="@ + percent_encoded(
            encode_utf8(rendered(outer_call(text, trimmed(target_language)))),
        ) + "&"@,
    }
}

/// Builds the request for one translation.
pub fn build_translation_request(text: &str, target_language: &str, number: u32) -> (request:
    TranslationRequest)
    ensures
        request@ == translation_request(text@, target_language@, number),
{
    let target = trim(target_language);
    let mut call: Vec<Json> = Vec::new();
    call.push(Json::text(text));
    call.push(Json::text("auto"));
    call.push(Json::text(target));
    call.push(Json::Bool(true));
    let mut nothing: Vec<Json> = Vec::new();
    nothing.push(Json::Null);
    assert(values_of(call@) =~= seq![
        JsonValue::Text(text@),
        JsonValue::Text("auto"@),
        JsonValue::Text(target@),
        JsonValue::Bool(true),
    ]);
    assert(values_of(nothing@) =~= seq![JsonValue::Null]);
    let mut inner: Vec<Json> = Vec::new();
    inner.push(array(call));
    inner.push(array(nothing));
    assert(values_of(inner@) =~= inner_call(text@, target@)->Array_0);
    let inner_doc = array(inner);
    let inner_text = render(&inner_doc);
    let mut envelope: Vec<Json> = Vec::new();
    envelope.push(Json::text("MkEWBc"));
    envelope.push(Json::text(inner_text.as_str()));
    envelope.push(Json::Null);
    envelope.push(Json::text("0"));
    assert(values_of(envelope@) =~= seq![
        JsonValue::Text("MkEWBc"@),
        JsonValue::Text(rendered(inner_call(text@, target@))),
        JsonValue::Null,
        JsonValue::Text("0"@),
    ]);
    let mut middle: Vec<Json> = Vec::new();
    middle.push(array(envelope));
    assert(values_of(middle@) =~= seq![JsonValue::Array(values_of(envelope@))]);
    let mut outer: Vec<Json> = Vec::new();
    outer.push(array(middle));
    assert(values_of(outer@) =~= outer_call(text@, target@)->Array_0);
    let outer_doc = array(outer);
    let outer_text = render(&outer_doc);
    let encoded = url_encoded(outer_text.as_str());
    let number_text = decimal_text(number);
    let url = joined(
        joined(
            "https://translate.google.com/_/TranslateWebserverUi/data/batchexecute?rpcids=MkEWBc&source-path=/&f.sid=&bl=&hl=en-US&soc-app=1&soc-platform=1&soc-device=1&_reqid=",
            number_text.as_str(),
        ).as_str(),
        "&rt=c",
    );
    let body = joined(joined("f.req=", encoded.as_str()).as_str(), "&");
    TranslationRequest {
        url,
        content_type: owned("application/x-www-form-urlencoded;charset=UTF-8"),
        body,
    }
}

/// Builds the request for one translation under a request number drawn at
/// random, and returns the number with it.
pub fn new_translation_request(text: &str, target_language: &str) -> (made: (
    u32,
    TranslationRequest,
))
    ensures
        1000 <= made.0 < 10000,
        made.1@ == translation_request(text@, target_language@, made.0),
{
    let number = fresh_request_number();
    (number, build_translation_request(text, target_language, number))
}

/// The message for an answer that is too short to hold anything.
pub open spec fn invalid_format() -> Seq<char> {
    "Invalid response format"@
}

/// The message for an answer in which no translation is found.
pub open spec fn could_not_parse() -> Seq<char> {
    "Could not parse translation"@ + " from response"@
}

/// The message for an answer in which no translation is found.
fn could_not_parse_text() -> (message: String)
    ensures
        message@ == could_not_parse(),
{
    joined("Could not parse translation", " from response")
}

/// The message for a line that should be a JSON document and is none, with
/// what is wrong with it.
pub open spec fn json_failure(detail: Seq<char>) -> Seq<char> {
    "Failed to parse response JSON: "@ + detail
}

/// The message for translation data that should be a JSON document and is
/// none, with what is wrong with it.
pub open spec fn data_failure(detail: Seq<char>) -> Seq<char> {
    "Failed to parse translation data: "@ + detail
}

/// The element at `index` of a document that may be missing.
pub open spec fn nth(doc: Option<JsonValue>, index: int) -> Option<JsonValue> {
    match doc {
        Some(d) => d.item(index),
        None => None,
    }
}

/// The text of one part of a translation: the string at its front, or
/// nothing where there is none.
pub open spec fn segment(part: JsonValue) -> Seq<char> {
    match part.item(0) {
        Some(JsonValue::Text(t)) => t,
        _ => Seq::empty(),
    }
}

/// The texts of the parts of a translation, one after the other.
pub open spec fn joined_segments(parts: Seq<JsonValue>) -> Seq<char>
    decreases parts.len(),
{
    if parts.len() == 0 {
        Seq::empty()
    } else {
        joined_segments(parts.drop_last()) + segment(parts.last())
    }
}

/// What is found in them.
pub type Found = Option<Result<TranslationView, Seq<char>>>;

/// The translation in the data of an answer. The parts of the translation
/// stand at position 5 of the first element of the first element of the
/// second element of the data; without an array there the data holds no
/// translation. The detected language is the string at position 3 of the
/// second element; where there is none the data cannot be read.
pub open spec fn translation_in_data(data: JsonValue) -> Found {
    match nth(nth(nth(data.item(1), 0), 0), 5) {
        Some(JsonValue::Array(parts)) => match nth(data.item(1), 3) {
            Some(JsonValue::Text(language)) => Some(
                Ok(TranslationView { text: joined_segments(parts), detected_language: language }),
            ),
            _ => Some(Err(could_not_parse())),
        },
        _ => None,
    }
}

/// The translation data that an element of an answer carries: the element is
/// an array of at least three, its first member is the string `wrb.fr` and
/// its third member is a string, which is the data.
pub open spec fn carried_data(item: JsonValue) -> Option<Seq<char>> {
    match item.items() {
        Some(members) => if members.len() >= 3 && members[0].text() == Some("wrb.fr"@) {
            members[2].text()
        } else {
            None
        },
        None => None,
    }
}

/// The translation in one element of an answer.
pub open spec fn translation_in_item(item: JsonValue) -> Found {
    match carried_data(item) {
        Some(data_text) => match parsed(encode_utf8(data_text)) {
            Some(data) => translation_in_data(data),
            None => Some(Err(data_failure(refusal(encode_utf8(data_text))))),
        },
        None => None,
    }
}

/// The first translation or failure in the elements of an answer.
pub open spec fn translation_in_items(items: Seq<JsonValue>) -> Found
    decreases items.len(),
{
    if items.len() == 0 {
        None
    } else {
        match translation_in_item(items[0]) {
            Some(found) => Some(found),
            None => translation_in_items(items.drop_first()),
        }
    }
}

/// Whether the three bytes of `"e"` stand somewhere in a line.
pub open spec fn has_error_marker(line: Seq<u8>) -> bool {
    exists|i: int|
        0 <= i && i + 2 < line.len() && line[i] == 0x22 && #[trigger] line[i + 1] == 0x65 && line[i
            + 2] == 0x22
}

/// Whether a line is looked at: it begins with `[` and holds no error marker.
pub open spec fn candidate(line: Seq<u8>) -> bool {
    line.len() > 0 && line[0] == 0x5b && !has_error_marker(line)
}

/// The translation in one line of an answer.
pub open spec fn translation_in_line(line: Seq<u8>) -> Found {
    if !candidate(line) {
        None
    } else {
        match parsed(line) {
            None => Some(Err(json_failure(refusal(line)))),
            Some(outer) => match outer.items() {
                Some(items) => translation_in_items(items),
                None => None,
            },
        }
    }
}

/// The first translation or failure in the lines of an answer; a failure
/// where no line holds either.
pub open spec fn translation_in_lines(lines: Seq<Seq<u8>>) -> Result<TranslationView, Seq<char>>
    decreases lines.len(),
{
    if lines.len() == 0 {
        Err(could_not_parse())
    } else {
        match translation_in_line(lines[0]) {
            Some(found) => found,
            None => translation_in_lines(lines.drop_first()),
        }
    }
}

/// The lines of a text: the complete ones, each with its newline, and the
/// one that is still open, if it is not empty.
pub open spec fn all_lines(bytes: Seq<u8>) -> Seq<Seq<u8>> {
    if remainder(bytes).len() > 0 {
        complete_lines(bytes).push(remainder(bytes))
    } else {
        complete_lines(bytes)
    }
}

/// The translation in the body of an answer. The first six bytes of the body
/// are a guard and are passed over; a body of no more than six bytes is not
/// an answer.
pub open spec fn translation_in_body(body: Seq<u8>) -> Result<TranslationView, Seq<char>> {
    if body.len() <= 6 {
        Err(invalid_format())
    } else {
        translation_in_lines(all_lines(body.subrange(6, body.len() as int)))
    }
}

/// What a translation call has brought: the translation, or a description of
/// what went wrong.
pub open spec fn translation_outcome(exchange: TranslationExchange) -> Result<
    TranslationView,
    Seq<char>,
> {
    match exchange {
        Err(cause) => Err("Request failed: "@ + cause@),
        Ok(reply) => if !success(reply.status) {
            Err("HTTP error: "@ + reply.status_text@)
        } else {
            match reply.body {
                Err(cause) => Err("Failed to read response: "@ + cause@),
                Ok(text) => translation_in_body(encode_utf8(text@)),
            }
        },
    }
}

/// The value of what was found.
pub open spec fn found_view(found: Option<Result<TranslationResult, String>>) -> Found {
    match found {
        Some(Ok(result)) => Some(Ok(result@)),
        Some(Err(cause)) => Some(Err(cause@)),
        None => None,
    }
}

/// The value of an outcome.
pub open spec fn outcome_view(outcome: Result<TranslationResult, String>) -> Result<
    TranslationView,
    Seq<char>,
> {
    match outcome {
        Ok(result) => Ok(result@),
        Err(cause) => Err(cause@),
    }
}

/// Joins the texts of the parts of a translation.
fn read_parts(parts: &Vec<Json>) -> (text: String)
    ensures
        text@ == joined_segments(values_of(parts@)),
{
    let ghost all = values_of(parts@);
    let mut text = String::new();
    let mut i: usize = 0;
    while i < parts.len()
        invariant
            i <= parts.len(),
            all == values_of(parts@),
            text@ == joined_segments(all.subrange(0, i as int)),
        decreases parts.len() - i,
    {
        proof {
            let upto = all.subrange(0, i + 1);
            assert(upto.drop_last() =~= all.subrange(0, i as int));
        }
        match parts[i].item(0) {
            Some(front) => match front.as_text() {
                Some(t) => {
                    text.append(t);
                },
                None => {},
            },
            None => {},
        }
        i += 1;
    }
    assert(all.subrange(0, i as int) =~= all);
    text
}

/// The element at `index` of a document that may be missing.
fn nth_of<'a>(doc: Option<&'a Json>, index: usize) -> (found: Option<&'a Json>)
    ensures
        match found {
            Some(v) => nth(
                match doc {
                    Some(d) => Some(d@),
                    None => None,
                },
                index as int,
            ) == Some(v@),
            None => nth(
                match doc {
                    Some(d) => Some(d@),
                    None => None,
                },
                index as int,
            ).is_none(),
        },
{
    match doc {
        Some(d) => d.item(index),
        None => None,
    }
}

/// Reads the translation out of the data of an answer.
fn read_data(data: &Json) -> (found: Option<Result<TranslationResult, String>>)
    ensures
        found_view(found) == translation_in_data(data@),
{
    let second = data.item(1);
    let parts = match nth_of(nth_of(nth_of(second, 0), 0), 5) {
        Some(list) => match list.as_array() {
            Some(parts) => parts,
            None => {
                return None;
            },
        },
        None => {
            return None;
        },
    };
    let language = match nth_of(second, 3) {
        Some(value) => match value.as_text() {
            Some(language) => language,
            None => {
                return Some(Err(could_not_parse_text()));
            },
        },
        None => {
            return Some(Err(could_not_parse_text()));
        },
    };
    Some(Ok(TranslationResult { text: read_parts(parts), detected_language: owned(language) }))
}

/// Reads the translation out of one element of an answer.
fn read_item(item: &Json) -> (found: Option<Result<TranslationResult, String>>)
    ensures
        found_view(found) == translation_in_item(item@),
{
    let members = match item.as_array() {
        Some(members) => members,
        None => {
            return None;
        },
    };
    if members.len() < 3 {
        return None;
    }
    match members[0].as_text() {
        Some(kind) => {
            if !same_text(kind, "wrb.fr") {
                return None;
            }
        },
        None => {
            return None;
        },
    }
    let data_text = match members[2].as_text() {
        Some(t) => t,
        None => {
            return None;
        },
    };
    match parse_or_refuse(data_text.as_bytes()) {
        Ok(data) => read_data(&data),
        Err(detail) => Some(Err(joined("Failed to parse translation data: ", detail.as_str()))),
    }
}

/// Reads the first translation or failure out of the elements of an answer.
fn read_items(items: &Vec<Json>) -> (found: Option<Result<TranslationResult, String>>)
    ensures
        found_view(found) == translation_in_items(values_of(items@)),
{
    let ghost all = values_of(items@);
    let mut i: usize = 0;
    assert(all.subrange(0, all.len() as int) =~= all);
    while i < items.len()
        invariant
            i <= items.len(),
            all == values_of(items@),
            translation_in_items(all) == translation_in_items(
                all.subrange(i as int, all.len() as int),
            ),
        decreases items.len() - i,
    {
        let ghost tail = all.subrange(i as int, all.len() as int);
        assert(tail.drop_first() =~= all.subrange(i + 1, all.len() as int));
        match read_item(&items[i]) {
            Some(found) => {
                return Some(found);
            },
            None => {},
        }
        i += 1;
    }
    None
}

/// Whether the three bytes of `"e"` stand somewhere in a line.
fn contains_error_marker(line: &[u8]) -> (found: bool)
    ensures
        found == has_error_marker(line@),
{
    if line.len() < 3 {
        return false;
    }
    let mut i: usize = 0;
    while i + 2 < line.len()
        invariant
            line.len() >= 3,
            i + 2 <= line.len(),
            forall|j: int|
                0 <= j < i ==> !(line@[j] == 0x22 && #[trigger] line@[j + 1] == 0x65 && line@[j + 2]
                    == 0x22),
        decreases line.len() - i,
    {
        if line[i] == 0x22 && line[i + 1] == 0x65 && line[i + 2] == 0x22 {
            return true;
        }
        i += 1;
    }
    false
}

/// Reads the translation out of one line of an answer.
fn read_line(line: &[u8]) -> (found: Option<Result<TranslationResult, String>>)
    ensures
        found_view(found) == translation_in_line(line@),
{
    if line.len() == 0 || line[0] != 0x5b || contains_error_marker(line) {
        return None;
    }
    match parse_or_refuse(line) {
        Err(detail) => Some(Err(joined("Failed to parse response JSON: ", detail.as_str()))),
        Ok(outer) => match outer.as_array() {
            Some(items) => read_items(items),
            None => None,
        },
    }
}

/// Reads the translation out of the body of an answer.
pub fn parse_translation(body: &str) -> (outcome: Result<TranslationResult, String>)
    ensures
        outcome_view(outcome) == translation_in_body(encode_utf8(body@)),
{
    let bytes = body.as_bytes();
    if bytes.len() <= 6 {
        return Err(owned("Invalid response format"));
    }
    let guarded = slice_subrange(bytes, 6, bytes.len());
    let mut open_line: Vec<u8> = Vec::new();
    let mut lines = take_lines(&mut open_line, guarded);
    if open_line.len() > 0 {
        lines.push(open_line);
    }
    let ghost all = line_views(lines@);
    let mut i: usize = 0;
    assert(all.subrange(0, all.len() as int) =~= all);
    while i < lines.len()
        invariant
            i <= lines.len(),
            all == line_views(lines@),
            bytes@ == encode_utf8(body@),
            bytes@.len() > 6,
            all == all_lines(bytes@.subrange(6, bytes@.len() as int)),
            translation_in_lines(all) == translation_in_lines(
                all.subrange(i as int, all.len() as int),
            ),
        decreases lines.len() - i,
    {
        let ghost tail = all.subrange(i as int, all.len() as int);
        assert(tail.drop_first() =~= all.subrange(i + 1, all.len() as int));
        match read_line(lines[i].as_slice()) {
            Some(found) => {
                return found;
            },
            None => {},
        }
        i += 1;
    }
    Err(could_not_parse_text())
}

/// Turns what came back from a translation call into the translation, or
/// into a description of the failure.
pub fn translation_result(exchange: TranslationExchange) -> (outcome: Result<
    TranslationResult,
    String,
>)
    ensures
        outcome_view(outcome) == translation_outcome(exchange),
{
    match exchange {
        Err(cause) => Err(joined("Request failed: ", cause.as_str())),
        Ok(reply) => {
            if !is_success(reply.status) {
                return Err(joined("HTTP error: ", reply.status_text.as_str()));
            }
            match reply.body {
                Err(cause) => Err(joined("Failed to read response: ", cause.as_str())),
                Ok(text) => parse_translation(text.as_str()),
            }
        },
    }
}

/// Where a translation stands.
#[derive(Debug, Clone, Copy, PartialEq, Eq, Structural)]
pub enum TranslationStage {
    /// The translation into English is awaited, and nothing else was asked
    /// for.
    AwaitingEnglish,
    /// The translation into the language that was asked for is awaited.
    AwaitingTarget,
    /// The translation into English is awaited in place of the one that was
    /// asked for.
    AwaitingFallback,
    /// The translation has ended.
    Finished,
}

/// What is to be done next for a translation.
pub enum TranslationActionView {
    /// Translate the text into this language.
    Translate(Seq<char>),
    /// Hand this outcome to the caller; nothing more is to be done.
    Finish(Result<TranslationView, Seq<char>>),
}

/// A stage with the action that leads on from it.
pub struct TranslationMove {
    pub stage: TranslationStage,
    pub action: TranslationActionView,
}

/// The code of the English language.
pub open spec fn english() -> Seq<char> {
    "en"@
}

/// The message for a text that is English already.
pub open spec fn source_is_english() -> Seq<char> {
    "Source is English"@
}

/// How a translation begins. A blank text ends it at once. Without a target,
/// or with English as the target, the text is translated into English;
/// otherwise into the target, trimmed.
pub open spec fn begin_translation(text: Seq<char>, target_language: Option<Seq<char>>)
    -> TranslationMove {
    let target = match target_language {
        Some(t) => trimmed(t),
        None => Seq::empty(),
    };
    if blank(text) {
        TranslationMove {
            stage: TranslationStage::Finished,
            action: TranslationActionView::Finish(Err("Empty text"@)),
        }
    } else if target.len() == 0 || target == english() {
        TranslationMove {
            stage: TranslationStage::AwaitingEnglish,
            action: TranslationActionView::Translate(english()),
        }
    } else {
        TranslationMove {
            stage: TranslationStage::AwaitingTarget,
            action: TranslationActionView::Translate(target),
        }
    }
}

/// How a translation goes on when a call has come back. A failure ends it.
/// A translation into English that was all that was asked for fails where
/// the text was English already. A translation into another language gives
/// way to one into English where the text was English; the outcome of that
/// one is final.
pub open spec fn resolve(stage: TranslationStage, outcome: Result<TranslationView, Seq<char>>)
    -> TranslationMove {
    let finish = |o: Result<TranslationView, Seq<char>>|
        TranslationMove {
            stage: TranslationStage::Finished,
            action: TranslationActionView::Finish(o),
        };
    match stage {
        TranslationStage::Finished => finish(Err("Unexpected event"@)),
        TranslationStage::AwaitingEnglish => match outcome {
            Ok(result) => if result.detected_language == english() {
                finish(Err(source_is_english()))
            } else {
                finish(outcome)
            },
            Err(_) => finish(outcome),
        },
        TranslationStage::AwaitingTarget => match outcome {
            Ok(result) => if result.detected_language == english() {
                TranslationMove {
                    stage: TranslationStage::AwaitingFallback,
                    action: TranslationActionView::Translate(english()),
                }
            } else {
                finish(outcome)
            },
            Err(_) => finish(outcome),
        },
        TranslationStage::AwaitingFallback => finish(outcome),
    }
}

/// A text that is English already is not translated into English: where
/// nothing but English was asked for, the translation fails and says so.
pub proof fn lemma_english_source_fails(result: TranslationView)
    requires
        result.detected_language == english(),
    ensures
        resolve(TranslationStage::AwaitingEnglish, Ok(result)) == (TranslationMove {
            stage: TranslationStage::Finished,
            action: TranslationActionView::Finish(Err(source_is_english())),
        }),
{
}

/// The first failure of a call ends the translation and is its outcome.
pub proof fn lemma_failure_is_passed_on(stage: TranslationStage, cause: Seq<char>)
    requires
        stage != TranslationStage::Finished,
    ensures
        resolve(stage, Err(cause)) == (TranslationMove {
            stage: TranslationStage::Finished,
            action: TranslationActionView::Finish(Err(cause)),
        }),
{
}

/// A translation asks for two calls at most: after the second one it has
/// ended, whatever came back.
pub proof fn lemma_two_calls_at_most(
    stage: TranslationStage,
    first: Result<TranslationView, Seq<char>>,
    second: Result<TranslationView, Seq<char>>,
)
    requires
        stage != TranslationStage::Finished,
    ensures
        resolve(stage, first).stage == TranslationStage::Finished || resolve(
            resolve(stage, first).stage,
            second,
        ).stage == TranslationStage::Finished,
{
}

/// What is to be done next for a translation.
#[derive(Debug, PartialEq, Eq)]
pub enum TranslationAction {
    /// Translate the text into this language.
    Translate(String),
    /// Hand this outcome to the caller; nothing more is to be done.
    Finish(Result<TranslationResult, String>),
}

impl View for TranslationAction {
    type V = TranslationActionView;

    open spec fn view(&self) -> TranslationActionView {
        match self {
            TranslationAction::Translate(target) => TranslationActionView::Translate(target@),
            TranslationAction::Finish(outcome) => TranslationActionView::Finish(
                outcome_view(*outcome),
            ),
        }
    }
}

/// One translation on its way through the rule.
pub struct TranslationJob {
    stage: TranslationStage,
}

impl TranslationJob {
    /// Where the translation stands.
    pub closed spec fn stage_view(&self) -> TranslationStage {
        self.stage
    }

    /// Where the translation stands.
    pub fn stage(&self) -> (stage: TranslationStage)
        ensures
            stage == self.stage_view(),
    {
        self.stage
    }

    /// Begins a translation and says what is to be done first.
    pub fn begin(text: &str, target_language: Option<String>) -> (begun: (
        TranslationJob,
        TranslationAction,
    ))
        ensures
            (TranslationMove { stage: begun.0.stage_view(), action: begun.1@ })
                == begin_translation(
                text@,
                match target_language {
                    Some(t) => Some(t@),
                    None => None,
                },
            ),
    {
        if trim(text).is_empty() {
            return (
                TranslationJob { stage: TranslationStage::Finished },
                TranslationAction::Finish(Err(owned("Empty text"))),
            );
        }
        let second_language = match target_language {
            Some(t) => t,
            None => String::new(),
        };
        let target = trim(second_language.as_str());
        if target.is_empty() || same_text(target, "en") {
            return (
                TranslationJob { stage: TranslationStage::AwaitingEnglish },
                TranslationAction::Translate(owned("en")),
            );
        }
        (
            TranslationJob { stage: TranslationStage::AwaitingTarget },
            TranslationAction::Translate(owned(target)),
        )
    }

    /// Takes the outcome of the call that was asked for and says what is to
    /// be done next.
    pub fn step(&mut self, outcome: Result<TranslationResult, String>) -> (action:
        TranslationAction)
        ensures
            (TranslationMove { stage: final(self).stage_view(), action: action@ }) == resolve(
                old(self).stage_view(),
                outcome_view(outcome),
            ),
    {
        let stage = self.stage;
        self.stage = TranslationStage::Finished;
        match stage {
            TranslationStage::Finished => TranslationAction::Finish(
                Err(owned("Unexpected event")),
            ),
            TranslationStage::AwaitingFallback => TranslationAction::Finish(outcome),
            TranslationStage::AwaitingEnglish => {
                let english = match &outcome {
                    Ok(result) => same_text(result.detected_language.as_str(), "en"),
                    Err(_) => false,
                };
                if english {
                    TranslationAction::Finish(Err(owned("Source is English")))
                } else {
                    TranslationAction::Finish(outcome)
                }
            },
            TranslationStage::AwaitingTarget => {
                let english = match &outcome {
                    Ok(result) => same_text(result.detected_language.as_str(), "en"),
                    Err(_) => false,
                };
                if english {
                    self.stage = TranslationStage::AwaitingFallback;
                    TranslationAction::Translate(owned("en"))
                } else {
                    TranslationAction::Finish(outcome)
                }
            },
        }
    }
}

} // verus!
