//! The messages that the completion backend sends, and how they are read
//! from JSON documents.

use crate::json::{values_of, Json, JsonValue};
use crate::text::owned;
use vstd::prelude::*;

verus! {

/// The function that a tool call names, with its arguments.
#[derive(Debug, PartialEq)]
pub struct ToolCallFunction {
    pub index: Option<u32>,
    pub name: String,
    pub arguments: Json,
}

/// A request of the backend to run a tool before it gives its answer.
#[derive(Debug, PartialEq)]
pub struct ToolCall {
    pub call_type: Option<String>,
    pub function: ToolCallFunction,
}

/// One message of a conversation.
#[derive(Debug, PartialEq)]
pub struct ChatMessage {
    pub role: String,
    pub content: String,
    pub tool_calls: Option<Vec<ToolCall>>,
}

/// One document of the backend: an optional message and the flag that ends a
/// stream.
#[derive(Debug, PartialEq)]
pub struct ChatResponse {
    pub message: Option<ChatMessage>,
    pub done: bool,
}

/// Marks a document that does not have the expected shape.
#[derive(Debug, Clone, Copy, PartialEq, Eq)]
pub struct Malformed;

/// The mathematical value of a `ToolCall`.
pub struct ToolCallView {
    pub call_type: Option<Seq<char>>,
    pub index: Option<u32>,
    pub name: Seq<char>,
    pub arguments: JsonValue,
}

/// The mathematical value of a `ChatMessage`.
pub struct ChatMessageView {
    pub role: Seq<char>,
    pub content: Seq<char>,
    pub tool_calls: Option<Seq<ToolCallView>>,
}

/// The mathematical value of a `ChatResponse`.
pub struct ChatResponseView {
    pub message: Option<ChatMessageView>,
    pub done: bool,
}

/// The values of a sequence of tool calls.
pub open spec fn call_views(calls: Seq<ToolCall>) -> Seq<ToolCallView> {
    Seq::new(calls.len(), |i: int| calls[i]@)
}

impl View for ToolCall {
    type V = ToolCallView;

    open spec fn view(&self) -> ToolCallView {
        ToolCallView {
            call_type: match self.call_type {
                Some(t) => Some(t@),
                None => None,
            },
            index: self.function.index,
            name: self.function.name@,
            arguments: self.function.arguments@,
        }
    }
}

impl View for ChatMessage {
    type V = ChatMessageView;

    open spec fn view(&self) -> ChatMessageView {
        ChatMessageView {
            role: self.role@,
            content: self.content@,
            tool_calls: match self.tool_calls {
                Some(calls) => Some(call_views(calls@)),
                None => None,
            },
        }
    }
}

impl View for ChatResponse {
    type V = ChatResponseView;

    open spec fn view(&self) -> ChatResponseView {
        ChatResponseView {
            message: match self.message {
                Some(m) => Some(m@),
                None => None,
            },
            done: self.done,
        }
    }
}

/// Whether a member is missing or `null`: both stand for "not given".
pub open spec fn not_given(member: Option<JsonValue>) -> bool {
    member.is_none() || member == Some(JsonValue::Null)
}

/// An optional string member: `Ok(None)` where it is not given, the string
/// where it is one, `Err` for anything else.
pub open spec fn optional_text(member: Option<JsonValue>) -> Result<Option<Seq<char>>, Malformed> {
    if not_given(member) {
        Ok(None)
    } else {
        match member.unwrap().text() {
            Some(t) => Ok(Some(t)),
            None => Err(Malformed),
        }
    }
}

/// A required string member.
pub open spec fn required_text(member: Option<JsonValue>) -> Option<Seq<char>> {
    match member {
        Some(v) => v.text(),
        None => None,
    }
}

/// An optional member that holds an unsigned integer of thirty-two bits.
pub open spec fn optional_index(member: Option<JsonValue>) -> Result<Option<u32>, Malformed> {
    if not_given(member) {
        Ok(None)
    } else {
        match member.unwrap().integer() {
            Some(n) => if n <= u32::MAX {
                Ok(Some(n as u32))
            } else {
                Err(Malformed)
            },
            None => Err(Malformed),
        }
    }
}

/// The tool call that a document describes: an object with an optional
/// string `type` and an object `function`, which has an optional integer
/// `index`, a string `name` and `arguments` of any kind.
pub open spec fn tool_call_of(doc: JsonValue) -> Option<ToolCallView> {
    let function = doc.field("function"@);
    if !(doc is Object) || function.is_none() || !(function.unwrap() is Object) {
        None
    } else {
        let f = function.unwrap();
        match (
            optional_text(doc.field("type"@)),
            optional_index(f.field("index"@)),
            required_text(f.field("name"@)),
            f.field("arguments"@),
        ) {
            (Ok(call_type), Ok(index), Some(name), Some(arguments)) => Some(
                ToolCallView { call_type, index, name, arguments },
            ),
            _ => None,
        }
    }
}

/// Whether every document of a sequence describes a tool call.
pub open spec fn all_tool_calls(docs: Seq<JsonValue>) -> bool {
    forall|i: int| 0 <= i < docs.len() ==> (#[trigger] tool_call_of(docs[i])).is_some()
}

/// The tool calls that a sequence of documents describes.
pub open spec fn tool_calls_in(docs: Seq<JsonValue>) -> Seq<ToolCallView> {
    Seq::new(docs.len(), |i: int| tool_call_of(docs[i]).unwrap())
}

/// An optional list of tool calls: `Ok(None)` where it is not given, the calls
/// where it is an array of tool calls, `Err` for anything else.
pub open spec fn optional_tool_calls(member: Option<JsonValue>) -> Result<
    Option<Seq<ToolCallView>>,
    Malformed,
> {
    if not_given(member) {
        Ok(None)
    } else {
        match member.unwrap().items() {
            Some(docs) => if all_tool_calls(docs) {
                Ok(Some(tool_calls_in(docs)))
            } else {
                Err(Malformed)
            },
            None => Err(Malformed),
        }
    }
}

/// The message that a document describes: an object with the strings `role`
/// and `content` and an optional list `tool_calls`.
pub open spec fn message_of(doc: JsonValue) -> Option<ChatMessageView> {
    if !(doc is Object) {
        None
    } else {
        match (
            required_text(doc.field("role"@)),
            required_text(doc.field("content"@)),
            optional_tool_calls(doc.field("tool_calls"@)),
        ) {
            (Some(role), Some(content), Ok(tool_calls)) => Some(
                ChatMessageView { role, content, tool_calls },
            ),
            _ => None,
        }
    }
}

/// The response that a document describes: an object with an optional
/// `message` and the truth value `done`.
pub open spec fn response_of(doc: JsonValue) -> Option<ChatResponseView> {
    let message = doc.field("message"@);
    let done = doc.field("done"@);
    if !(doc is Object) || done.is_none() || done.unwrap().boolean().is_none() {
        None
    } else if not_given(message) {
        Some(ChatResponseView { message: None, done: done.unwrap().boolean().unwrap() })
    } else {
        match message_of(message.unwrap()) {
            Some(m) => Some(
                ChatResponseView { message: Some(m), done: done.unwrap().boolean().unwrap() },
            ),
            None => None,
        }
    }
}

/// Whether a document is an object.
fn is_object(doc: &Json) -> (r: bool)
    ensures
        r == (doc@ is Object),
{
    match doc {
        Json::Object(_) => true,
        _ => false,
    }
}

/// Whether a member is missing or `null`.
fn is_not_given(member: &Option<&Json>) -> (r: bool)
    ensures
        r == not_given(
            match *member {
                Some(v) => Some(v@),
                None => None,
            },
        ),
{
    match member {
        None => true,
        Some(Json::Null) => true,
        Some(_) => false,
    }
}

/// Reads an optional string member.
fn read_optional_text(doc: &Json, key: &str) -> (r: Result<Option<String>, Malformed>)
    ensures
        match r {
            Ok(Some(t)) => optional_text(doc@.field(key@)) == Ok::<_, Malformed>(Some(t@)),
            Ok(None) => optional_text(doc@.field(key@)) == Ok::<Option<Seq<char>>, Malformed>(
                None,
            ),
            Err(_) => optional_text(doc@.field(key@)).is_err(),
        },
{
    let member = doc.get(key);
    if is_not_given(&member) {
        return Ok(None);
    }
    match member {
        Some(v) => match v.as_text() {
            Some(t) => Ok(Some(owned(t))),
            None => Err(Malformed),
        },
        None => Ok(None),
    }
}

/// Reads a required string member.
fn read_required_text(doc: &Json, key: &str) -> (r: Option<String>)
    ensures
        match r {
            Some(t) => required_text(doc@.field(key@)) == Some(t@),
            None => required_text(doc@.field(key@)).is_none(),
        },
{
    match doc.get(key) {
        Some(v) => match v.as_text() {
            Some(t) => Some(owned(t)),
            None => None,
        },
        None => None,
    }
}

/// Reads an optional member that holds an unsigned integer of thirty-two bits.
fn read_optional_index(doc: &Json, key: &str) -> (r: Result<Option<u32>, Malformed>)
    ensures
        match r {
            Ok(index) => optional_index(doc@.field(key@)) == Ok::<_, Malformed>(index),
            Err(_) => optional_index(doc@.field(key@)).is_err(),
        },
{
    let member = doc.get(key);
    if is_not_given(&member) {
        return Ok(None);
    }
    match member {
        Some(v) => match v.as_u64() {
            Some(n) => if n <= 0xffff_ffff {
                Ok(Some(n as u32))
            } else {
                Err(Malformed)
            },
            None => Err(Malformed),
        },
        None => Ok(None),
    }
}

/// Reads one tool call from a document.
pub fn decode_tool_call(doc: &Json) -> (r: Option<ToolCall>)
    ensures
        match r {
            Some(call) => tool_call_of(doc@) == Some(call@),
            None => tool_call_of(doc@).is_none(),
        },
{
    if !is_object(doc) {
        return None;
    }
    let function = match doc.get("function") {
        Some(f) => f,
        None => {
            return None;
        },
    };
    if !is_object(function) {
        return None;
    }
    let call_type = match read_optional_text(doc, "type") {
        Ok(t) => t,
        Err(_) => {
            return None;
        },
    };
    let index = match read_optional_index(function, "index") {
        Ok(i) => i,
        Err(_) => {
            return None;
        },
    };
    let name = match read_required_text(function, "name") {
        Some(n) => n,
        None => {
            return None;
        },
    };
    let arguments = match function.get("arguments") {
        Some(a) => a.duplicate(),
        None => {
            return None;
        },
    };
    Some(ToolCall { call_type, function: ToolCallFunction { index, name, arguments } })
}

/// Reads an optional list of tool calls.
fn read_optional_tool_calls(doc: &Json, key: &str) -> (r: Result<Option<Vec<ToolCall>>, Malformed>)
    ensures
        match r {
            Ok(Some(calls)) => optional_tool_calls(doc@.field(key@)) == Ok::<_, Malformed>(
                Some(call_views(calls@)),
            ),
            Ok(None) => optional_tool_calls(doc@.field(key@)) == Ok::<
                Option<Seq<ToolCallView>>,
                Malformed,
            >(None),
            Err(_) => optional_tool_calls(doc@.field(key@)).is_err(),
        },
{
    let member = doc.get(key);
    if is_not_given(&member) {
        return Ok(None);
    }
    let list = match member {
        Some(v) => v,
        None => {
            return Ok(None);
        },
    };
    let items = match list.as_array() {
        Some(items) => items,
        None => {
            return Err(Malformed);
        },
    };
    let ghost docs = values_of(items@);
    let mut calls: Vec<ToolCall> = Vec::new();
    let mut i: usize = 0;
    while i < items.len()
        invariant
            i <= items.len(),
            docs == values_of(items@),
            !not_given(doc@.field(key@)),
            doc@.field(key@).unwrap().items() == Some(docs),
            calls.len() == i,
            forall|j: int| 0 <= j < i ==> tool_call_of(docs[j]) == Some(#[trigger] calls@[j]@),
        decreases items.len() - i,
    {
        match decode_tool_call(&items[i]) {
            Some(call) => {
                calls.push(call);
            },
            None => {
                assert(tool_call_of(docs[i as int]).is_none());
                return Err(Malformed);
            },
        }
        i += 1;
    }
    proof {
        assert forall|j: int| 0 <= j < docs.len() implies (#[trigger] tool_call_of(
            docs[j],
        )).is_some() by {
            assert(tool_call_of(docs[j]) == Some(calls@[j]@));
        }
        assert(call_views(calls@) =~= tool_calls_in(docs));
    }
    Ok(Some(calls))
}

/// Reads one message from a document.
pub fn decode_message(doc: &Json) -> (r: Option<ChatMessage>)
    ensures
        match r {
            Some(message) => message_of(doc@) == Some(message@),
            None => message_of(doc@).is_none(),
        },
{
    if !is_object(doc) {
        return None;
    }
    let role = match read_required_text(doc, "role") {
        Some(t) => t,
        None => {
            return None;
        },
    };
    let content = match read_required_text(doc, "content") {
        Some(t) => t,
        None => {
            return None;
        },
    };
    let tool_calls = match read_optional_tool_calls(doc, "tool_calls") {
        Ok(calls) => calls,
        Err(_) => {
            return None;
        },
    };
    Some(ChatMessage { role, content, tool_calls })
}

/// Reads one response of the backend from a document.
pub fn decode_response(doc: &Json) -> (r: Option<ChatResponse>)
    ensures
        match r {
            Some(response) => response_of(doc@) == Some(response@),
            None => response_of(doc@).is_none(),
        },
{
    if !is_object(doc) {
        return None;
    }
    let done = match doc.get("done") {
        Some(v) => match v.as_bool() {
            Some(b) => b,
            None => {
                return None;
            },
        },
        None => {
            return None;
        },
    };
    let member = doc.get("message");
    if is_not_given(&member) {
        return Some(ChatResponse { message: None, done });
    }
    match member {
        Some(v) => match decode_message(v) {
            Some(message) => Some(ChatResponse { message: Some(message), done }),
            None => None,
        },
        None => Some(ChatResponse { message: None, done }),
    }
}

} // verus!
