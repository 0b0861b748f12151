//! The conversation with the backend: its messages and the request that
//! carries them.

use crate::chat::{call_views, ChatMessage, ChatMessageView, ToolCall, ToolCallView};
use crate::json::{array, values_of, Json, JsonValue, ObjectBuilder};
use crate::text::{decimal, joined};
use crate::tools::{
    get_web_search_tool, tool_document, web_search_description, web_search_name,
    web_search_parameters,
};
use vstd::prelude::*;

verus! {

/// The instruction that opens every quick answer.
pub const PROMPT: &'static str = "You are a web search agent. Your only job is to answer the user's query using fresh information from the internet.\n\nRules:\n- Always call the tool `web_search` exactly once per user query.\n- Use the tool results as your primary source of truth.\n- Return a single, direct answer to the user based only on the tool results and common knowledge needed for readability.\n- Do not ask follow-up questions. Do not start or continue a conversation. Do not add suggestions or next steps.\n- If the results are conflicting, summarize the consensus and note uncertainty briefly.\n- If the results are insufficient, say so in one sentence and state what could not be verified.\n\nOutput:\n- Respond with only the final answer text (no tool logs, no reasoning, no citations unless the application requires them).";

/// The instruction that opens every quick answer.
pub open spec fn system_prompt() -> Seq<char> {
    PROMPT@
}

/// The instruction that opens every quick answer.
pub fn system_prompt_text() -> (text: &'static str)
    ensures
        text@ == system_prompt(),
{
    PROMPT
}

/// What is put behind the user's text to switch the model's thinking on or
/// off.
pub open spec fn thinking_suffix(enable_thinking: bool) -> Seq<char> {
    if enable_thinking {
        " /think"@
    } else {
        " /no_think"@
    }
}

/// A message with a role and a text.
pub open spec fn plain_message(role: Seq<char>, content: Seq<char>) -> JsonValue {
    JsonValue::Object(
        Map::empty().insert("role"@, JsonValue::Text(role)).insert(
            "content"@,
            JsonValue::Text(content),
        ),
    )
}

/// The message that carries the instruction.
pub open spec fn system_message() -> JsonValue {
    plain_message("system"@, system_prompt())
}

/// The message that carries the user's text, with the thinking marker behind
/// it.
pub open spec fn user_message(text: Seq<char>, enable_thinking: bool) -> JsonValue {
    plain_message("user"@, text + thinking_suffix(enable_thinking))
}

/// The message that carries what a tool has given.
pub open spec fn tool_message(tool_name: Seq<char>, content: Seq<char>) -> JsonValue {
    JsonValue::Object(
        Map::empty().insert("role"@, JsonValue::Text("tool"@)).insert(
            "tool_name"@,
            JsonValue::Text(tool_name),
        ).insert("content"@, JsonValue::Text(content)),
    )
}

/// An optional string as a document: the string, or `null`.
pub open spec fn text_or_null(text: Option<Seq<char>>) -> JsonValue {
    match text {
        Some(t) => JsonValue::Text(t),
        None => JsonValue::Null,
    }
}

/// The function of a tool call as a document. The index is left out where
/// the call has none.
pub open spec fn function_value(call: ToolCallView) -> JsonValue {
    let indexed = match call.index {
        Some(n) => Map::empty().insert("index"@, JsonValue::Number(decimal(n as nat))),
        None => Map::empty(),
    };
    JsonValue::Object(
        indexed.insert("name"@, JsonValue::Text(call.name)).insert("arguments"@, call.arguments),
    )
}

/// A tool call as a document.
pub open spec fn tool_call_value(call: ToolCallView) -> JsonValue {
    JsonValue::Object(
        Map::empty().insert("type"@, text_or_null(call.call_type)).insert(
            "function"@,
            function_value(call),
        ),
    )
}

/// The documents of a sequence of tool calls.
pub open spec fn tool_call_values(calls: Seq<ToolCallView>) -> Seq<JsonValue> {
    Seq::new(calls.len(), |i: int| tool_call_value(calls[i]))
}

/// The message that repeats what the assistant has said, with the tool calls
/// that it made.
pub open spec fn assistant_message(message: ChatMessageView) -> JsonValue {
    JsonValue::Object(
        Map::empty().insert("role"@, JsonValue::Text("assistant"@)).insert(
            "content"@,
            JsonValue::Text(message.content),
        ).insert(
            "tool_calls"@,
            match message.tool_calls {
                Some(calls) => JsonValue::Array(tool_call_values(calls)),
                None => JsonValue::Null,
            },
        ),
    )
}

/// The request for one completion: the model, the conversation, no
/// streaming, the web search tool, and the thinking flag.
pub open spec fn chat_request(model: Seq<char>, messages: Seq<JsonValue>, enable_thinking: bool)
    -> JsonValue {
    JsonValue::Object(
        Map::empty().insert("model"@, JsonValue::Text(model)).insert(
            "messages"@,
            JsonValue::Array(messages),
        ).insert("stream"@, JsonValue::Bool(false)).insert(
            "tools"@,
            JsonValue::Array(seq![web_search_tool_value()]),
        ).insert("think"@, JsonValue::Bool(enable_thinking)),
    )
}

/// The document that announces the web search tool.
pub open spec fn web_search_tool_value() -> JsonValue {
    JsonValue::Object(
        Map::empty().insert("type"@, JsonValue::Text("function"@)).insert(
            "function"@,
            JsonValue::Object(
                Map::empty().insert("name"@, JsonValue::Text(web_search_name())).insert(
                    "description"@,
                    JsonValue::Text(web_search_description()),
                ).insert("parameters"@, web_search_parameters()),
            ),
        ),
    )
}

/// Builds a message with a role and a text.
pub fn plain(role: &str, content: &str) -> (doc: Json)
    ensures
        doc@ == plain_message(role@, content@),
{
    let mut message = ObjectBuilder::new();
    message.put("role", Json::text(role));
    message.put("content", Json::text(content));
    message.build()
}

/// Builds the two messages that open a quick answer: the instruction, and
/// the user's text with the thinking marker.
pub fn opening_messages(text: &str, enable_thinking: bool) -> (messages: Vec<Json>)
    ensures
        values_of(messages@) == seq![system_message(), user_message(text@, enable_thinking)],
{
    let suffix = if enable_thinking {
        " /think"
    } else {
        " /no_think"
    };
    let user_content = joined(text, suffix);
    let mut messages: Vec<Json> = Vec::new();
    messages.push(plain("system", system_prompt_text()));
    messages.push(plain("user", user_content.as_str()));
    messages
}

/// Builds the message that carries what a tool has given.
pub fn tool_reply(tool_name: &str, content: &str) -> (doc: Json)
    ensures
        doc@ == tool_message(tool_name@, content@),
{
    let mut message = ObjectBuilder::new();
    message.put("role", Json::text("tool"));
    message.put("tool_name", Json::text(tool_name));
    message.put("content", Json::text(content));
    message.build()
}

/// Builds the document of one tool call.
pub fn tool_call_document(call: &ToolCall) -> (doc: Json)
    ensures
        doc@ == tool_call_value(call@),
{
    let mut function = ObjectBuilder::new();
    match call.function.index {
        Some(n) => {
            function.put("index", Json::from_u32(n));
        },
        None => {},
    }
    function.put("name", Json::text(call.function.name.as_str()));
    function.put("arguments", call.function.arguments.duplicate());
    let mut doc = ObjectBuilder::new();
    match &call.call_type {
        Some(t) => {
            doc.put("type", Json::text(t.as_str()));
        },
        None => {
            doc.put("type", Json::Null);
        },
    }
    doc.put("function", function.build());
    doc.build()
}

/// Builds the message that repeats what the assistant has said.
pub fn assistant_echo(message: &ChatMessage) -> (doc: Json)
    ensures
        doc@ == assistant_message(message@),
{
    let calls_doc = match &message.tool_calls {
        Some(calls) => tool_call_documents(calls),
        None => Json::Null,
    };
    let mut doc = ObjectBuilder::new();
    doc.put("role", Json::text("assistant"));
    doc.put("content", Json::text(message.content.as_str()));
    doc.put("tool_calls", calls_doc);
    doc.build()
}

/// Copies the messages of a conversation into an array.
fn messages_array(messages: &Vec<Json>) -> (doc: Json)
    ensures
        doc@ == JsonValue::Array(values_of(messages@)),
{
    let mut copies: Vec<Json> = Vec::new();
    let mut i: usize = 0;
    while i < messages.len()
        invariant
            i <= messages.len(),
            copies.len() == i,
            forall|j: int| 0 <= j < i ==> (#[trigger] copies@[j])@ == messages@[j]@,
        decreases messages.len() - i,
    {
        copies.push(messages[i].duplicate());
        i += 1;
    }
    assert(values_of(copies@) =~= values_of(messages@));
    array(copies)
}

/// Builds the request for one completion.
pub fn build_chat_request(model: &str, messages: &Vec<Json>, enable_thinking: bool) -> (doc: Json)
    ensures
        doc@ == chat_request(model@, values_of(messages@), enable_thinking),
{
    let tool = get_web_search_tool();
    let mut tools: Vec<Json> = Vec::new();
    tools.push(tool_document(&tool));
    assert(values_of(tools@) =~= seq![web_search_tool_value()]);
    let mut request = ObjectBuilder::new();
    request.put("model", Json::text(model));
    request.put("messages", messages_array(messages));
    request.put("stream", Json::Bool(false));
    request.put("tools", array(tools));
    request.put("think", Json::Bool(enable_thinking));
    request.build()
}

/// A message as a document, as it is sent to the backend: its role and its
/// text, and its tool calls where it has any.
pub open spec fn message_value(message: ChatMessageView) -> JsonValue {
    let plain = Map::empty().insert("role"@, JsonValue::Text(message.role)).insert(
        "content"@,
        JsonValue::Text(message.content),
    );
    match message.tool_calls {
        Some(calls) => JsonValue::Object(
            plain.insert("tool_calls"@, JsonValue::Array(tool_call_values(calls))),
        ),
        None => JsonValue::Object(plain),
    }
}

/// The documents of a sequence of messages.
pub open spec fn message_values(messages: Seq<ChatMessageView>) -> Seq<JsonValue> {
    Seq::new(messages.len(), |i: int| message_value(messages[i]))
}

/// The values of a sequence of messages.
pub open spec fn message_views(messages: Seq<ChatMessage>) -> Seq<ChatMessageView> {
    Seq::new(messages.len(), |i: int| messages[i]@)
}

/// The request for a streamed completion: the model, the conversation, and
/// streaming switched on.
pub open spec fn stream_request(model: Seq<char>, messages: Seq<ChatMessageView>) -> JsonValue {
    JsonValue::Object(
        Map::empty().insert("model"@, JsonValue::Text(model)).insert(
            "messages"@,
            JsonValue::Array(message_values(messages)),
        ).insert("stream"@, JsonValue::Bool(true)),
    )
}

/// Builds the documents of a list of tool calls.
fn tool_call_documents(calls: &Vec<ToolCall>) -> (doc: Json)
    ensures
        doc@ == JsonValue::Array(tool_call_values(call_views(calls@))),
{
    let mut docs: Vec<Json> = Vec::new();
    let mut i: usize = 0;
    while i < calls.len()
        invariant
            i <= calls.len(),
            docs.len() == i,
            forall|j: int| 0 <= j < i ==> (#[trigger] docs@[j])@ == tool_call_value(calls@[j]@),
        decreases calls.len() - i,
    {
        docs.push(tool_call_document(&calls[i]));
        i += 1;
    }
    assert(values_of(docs@) =~= tool_call_values(call_views(calls@)));
    array(docs)
}

/// Builds the document of a message as it is sent to the backend.
pub fn message_document(message: &ChatMessage) -> (doc: Json)
    ensures
        doc@ == message_value(message@),
{
    let mut doc = ObjectBuilder::new();
    doc.put("role", Json::text(message.role.as_str()));
    doc.put("content", Json::text(message.content.as_str()));
    match &message.tool_calls {
        Some(calls) => {
            doc.put("tool_calls", tool_call_documents(calls));
        },
        None => {},
    }
    doc.build()
}

/// Builds the request for a streamed completion.
pub fn build_stream_request(model: &str, messages: &Vec<ChatMessage>) -> (doc: Json)
    ensures
        doc@ == stream_request(model@, message_views(messages@)),
{
    let mut docs: Vec<Json> = Vec::new();
    let mut i: usize = 0;
    while i < messages.len()
        invariant
            i <= messages.len(),
            docs.len() == i,
            forall|j: int| 0 <= j < i ==> (#[trigger] docs@[j])@ == message_value(messages@[j]@),
        decreases messages.len() - i,
    {
        docs.push(message_document(&messages[i]));
        i += 1;
    }
    assert(values_of(docs@) =~= message_values(message_views(messages@)));
    let mut request = ObjectBuilder::new();
    request.put("model", Json::text(model));
    request.put("messages", array(docs));
    request.put("stream", Json::Bool(true));
    request.build()
}

} // verus!
