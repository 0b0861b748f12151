//! The tool-calling protocol of a quick answer.
//!
//! A quick answer asks the backend once. Where the answer asks for tools, the
//! tools are run, what they gave is added to the conversation, and the
//! backend is asked a second time; the second answer is final. The protocol
//! is a state machine: each step takes what came back from the outside and
//! says what is to be done next. It sends nothing itself.

use crate::chat::{decode_response, response_of, ChatMessage, ChatMessageView, ToolCall, ToolCallView};
use crate::conversation::{
    assistant_echo, assistant_message, build_chat_request, chat_request, opening_messages,
    system_message, tool_message, tool_reply, user_message,
};
use crate::json::{
    lemma_values_push, parse_or_refuse, parsed, refusal, render, rendered, values_of, Json,
    JsonValue,
};
use crate::text::{blank, joined, owned, same_text, trim};
use crate::tools::{
    prepare_web_search, prepared_search, search_outcome, web_search_name, web_search_outcome,
    SearchRequest, SearchRequestView,
};
use crate::transport::{is_success, success, HttpReply};
use vstd::prelude::*;

verus! {

/// What a tool has given: the name of the tool and its text. A failure is
/// text too.
#[derive(Debug, Clone, PartialEq, Eq)]
pub struct ToolResult {
    pub tool_name: String,
    pub output_text: String,
}

/// The mathematical value of a `ToolResult`.
pub struct ToolResultView {
    pub tool_name: Seq<char>,
    pub output_text: Seq<char>,
}

impl View for ToolResult {
    type V = ToolResultView;

    open spec fn view(&self) -> ToolResultView {
        ToolResultView { tool_name: self.tool_name@, output_text: self.output_text@ }
    }
}

/// The values of a sequence of tool results.
pub open spec fn result_views(results: Seq<ToolResult>) -> Seq<ToolResultView> {
    Seq::new(results.len(), |i: int| results[i]@)
}

/// What came back from the backend.
pub type ChatExchange = Result<HttpReply<Vec<u8>>, String>;

/// What came back from a search.
pub type SearchExchange = Result<HttpReply<String>, String>;

/// The message for a request without text.
pub open spec fn empty_text() -> Seq<char> {
    "Empty text"@
}

/// The message for an answer without a message.
pub open spec fn no_response() -> Seq<char> {
    "No response from model"@
}

/// The message for something that came back when nothing was asked for.
pub open spec fn unexpected_event() -> Seq<char> {
    "Unexpected event"@
}

/// The message for a backend that could not be reached.
pub open spec fn connect_failure(cause: Seq<char>, follow_up: bool) -> Seq<char> {
    if follow_up {
        "Failed to connect to Ollama: "@ + cause
    } else {
        "Failed to connect to Ollama: "@ + cause + ". Make sure Ollama is running."@
    }
}

/// The message for a backend that answered with a failure: it names the
/// status.
pub open spec fn status_failure(status_text: Seq<char>) -> Seq<char> {
    "Ollama API error: "@ + status_text
}

/// The message for a body that could not be read.
pub open spec fn read_failure(cause: Seq<char>, follow_up: bool) -> Seq<char> {
    if follow_up {
        "Failed to read follow-up response: "@ + cause
    } else {
        "Failed to read response: "@ + cause
    }
}

/// What is said of a document that does not have the expected shape.
pub open spec fn unexpected_document() -> Seq<char> {
    "unexpected document"@
}

/// The message for a body that is not a response of the backend, with what
/// is wrong with it.
pub open spec fn parse_failure(follow_up: bool, detail: Seq<char>) -> Seq<char> {
    if follow_up {
        "Failed to parse follow-up response: "@ + detail
    } else {
        "Failed to parse response: "@ + detail
    }
}

/// The message of the backend in what came back, or the description of what
/// went wrong: the backend was not reached, it reported a failure, its body
/// could not be read, or its body is not a response. A body that is no JSON
/// document is described in the words of `serde_json`.
pub open spec fn reply_message(exchange: ChatExchange, follow_up: bool) -> Result<
    Option<ChatMessageView>,
    Seq<char>,
> {
    match exchange {
        Err(cause) => Err(connect_failure(cause@, follow_up)),
        Ok(reply) => if !success(reply.status) {
            Err(status_failure(reply.status_text@))
        } else {
            match reply.body {
                Err(cause) => Err(read_failure(cause@, follow_up)),
                Ok(bytes) => match parsed(bytes@) {
                    None => Err(parse_failure(follow_up, refusal(bytes@))),
                    Some(doc) => match response_of(doc) {
                        None => Err(parse_failure(follow_up, unexpected_document())),
                        Some(response) => Ok(response.message),
                    },
                },
            }
        },
    }
}

/// The final answer that a message gives: its text, or a failure where there
/// is no message.
pub open spec fn answer(message: Option<ChatMessageView>) -> Result<Seq<char>, Seq<char>> {
    match message {
        Some(m) => Ok(m.content),
        None => Err(no_response()),
    }
}

/// The tool calls of a message that asks for tools; none where it asks for
/// none.
pub open spec fn requested_calls(message: Option<ChatMessageView>) -> Seq<ToolCallView> {
    match message {
        Some(m) => match m.tool_calls {
            Some(calls) => calls,
            None => Seq::empty(),
        },
        None => Seq::empty(),
    }
}

/// The query of a tool call that is to be run. Every call that names the web
/// search is run: its query is the string under `query` in its arguments, or
/// the empty string where there is no such string. A call that names
/// anything else is passed over.
pub open spec fn search_query(call: ToolCallView) -> Option<Seq<char>> {
    if call.name == web_search_name() {
        match call.arguments.field("query"@) {
            Some(JsonValue::Text(q)) => Some(q),
            _ => Some(Seq::empty()),
        }
    } else {
        None
    }
}

/// The text that stands for the outcome of a tool: what it gave, or the
/// description of its failure.
pub open spec fn tool_text(outcome: Result<Seq<char>, Seq<char>>) -> Seq<char> {
    match outcome {
        Ok(text) => text,
        Err(cause) => "Search failed: "@ + cause,
    }
}

/// The messages that carry the results of the tools, in order.
pub open spec fn tool_messages(results: Seq<ToolResultView>) -> Seq<JsonValue> {
    Seq::new(results.len(), |i: int| tool_message(results[i].tool_name, results[i].output_text))
}

/// Where a quick answer stands.
#[derive(Debug, Clone, Copy, PartialEq, Eq, Structural)]
pub enum Stage {
    /// The first answer of the backend is awaited.
    AwaitingFirst,
    /// The answer to a search is awaited.
    AwaitingSearch,
    /// The second answer of the backend is awaited.
    AwaitingSecond,
    /// The quick answer has ended.
    Finished,
}

/// The mathematical value of a quick answer.
pub struct SessionView {
    pub model: Seq<char>,
    pub enable_thinking: bool,
    pub search_api_url: Seq<char>,
    pub search_api_key: Seq<char>,
    /// The conversation so far.
    pub messages: Seq<JsonValue>,
    pub stage: Stage,
    /// The message of the first answer, while its tools are run.
    pub first: Option<ChatMessageView>,
    /// The position of the tool call that is looked at next, or whose search
    /// is awaited.
    pub next: nat,
    /// What the tools have given so far.
    pub results: Seq<ToolResultView>,
}

/// What is to be done next.
pub enum ActionView {
    /// Post this body to the backend.
    SendChat(Seq<char>),
    /// Send this search.
    Search(SearchRequestView),
    /// Hand this outcome to the caller; nothing more is to be done.
    Finish(Result<Seq<char>, Seq<char>>),
}

/// A state with the action that leads on from it.
pub struct Move {
    pub session: SessionView,
    pub action: ActionView,
}

impl SessionView {
    /// This state, ended with an outcome.
    pub open spec fn ended(self, outcome: Result<Seq<char>, Seq<char>>) -> Move {
        Move {
            session: SessionView { stage: Stage::Finished, ..self },
            action: ActionView::Finish(outcome),
        }
    }

    /// The second request: the conversation grows by the assistant's message
    /// and by one message for each result, and is sent again.
    pub open spec fn follow_up(self) -> Move {
        let first = self.first.unwrap();
        let messages = self.messages.push(assistant_message(first)) + tool_messages(self.results);
        Move {
            session: SessionView { messages, stage: Stage::AwaitingSecond, ..self },
            action: ActionView::SendChat(
                rendered(chat_request(self.model, messages, self.enable_thinking)),
            ),
        }
    }

    /// Runs the tool calls from the next one on, as far as that can be done
    /// without the outside: a call that names no known tool is passed over,
    /// and one whose search cannot be prepared gives its failure as its
    /// result.
    /// The first call whose search can be sent stops the run; where there is
    /// none, the second request follows.
    pub open spec fn run_tools(self) -> Move
        decreases requested_calls(self.first).len() - self.next,
    {
        let calls = requested_calls(self.first);
        if self.next >= calls.len() {
            self.follow_up()
        } else {
            let call = calls[self.next as int];
            match search_query(call) {
                None => SessionView { next: self.next + 1, ..self }.run_tools(),
                Some(query) => match prepared_search(
                    query,
                    self.search_api_url,
                    self.search_api_key,
                ) {
                    Ok(request) => Move {
                        session: SessionView { stage: Stage::AwaitingSearch, ..self },
                        action: ActionView::Search(request),
                    },
                    Err(cause) => SessionView {
                        next: self.next + 1,
                        results: self.results.push(
                            ToolResultView {
                                tool_name: call.name,
                                output_text: tool_text(Err(cause)),
                            },
                        ),
                        ..self
                    }.run_tools(),
                },
            }
        }
    }

    /// What the first answer of the backend leads to: a failure ends the
    /// quick answer; a message without tool calls is the final answer; a
    /// message with tool calls starts the run of the tools.
    pub open spec fn after_first(self, exchange: ChatExchange) -> Move {
        match reply_message(exchange, false) {
            Err(cause) => self.ended(Err(cause)),
            Ok(message) => if requested_calls(message).len() == 0 {
                self.ended(answer(message))
            } else {
                SessionView { first: message, next: 0, results: Seq::empty(), ..self }.run_tools()
            },
        }
    }

    /// What the answer to a search leads to: its outcome is the result of the
    /// call that was waiting, and the run of the tools goes on behind it.
    pub open spec fn after_search(self, exchange: SearchExchange) -> Move {
        let call = requested_calls(self.first)[self.next as int];
        SessionView {
            next: self.next + 1,
            results: self.results.push(
                ToolResultView {
                    tool_name: call.name,
                    output_text: tool_text(search_outcome(exchange)),
                },
            ),
            ..self
        }.run_tools()
    }

    /// What the second answer of the backend leads to: its message is the
    /// final answer, whether or not it asks for tools again.
    pub open spec fn after_second(self, exchange: ChatExchange) -> Move {
        match reply_message(exchange, true) {
            Err(cause) => self.ended(Err(cause)),
            Ok(message) => self.ended(answer(message)),
        }
    }

    /// What holds of every state that a quick answer can reach: while a
    /// search is awaited there is a tool call that waits for it.
    pub open spec fn wf(self) -> bool {
        self.stage == Stage::AwaitingSearch ==> self.next < requested_calls(self.first).len()
    }
}

/// What came back from the outside.
#[derive(Debug, PartialEq, Eq)]
pub enum Event {
    /// The backend has answered, or could not be reached.
    Chat(ChatExchange),
    /// A search has answered, or could not be sent.
    Search(SearchExchange),
}

/// The state and the action with which a quick answer begins: a blank text
/// ends it at once; otherwise the instruction and the user's text make the
/// conversation, and the first request is sent.
pub open spec fn begin_move(
    text: Seq<char>,
    model: Seq<char>,
    enable_thinking: bool,
    search_api_url: Seq<char>,
    search_api_key: Seq<char>,
) -> Move {
    let session = SessionView {
        model,
        enable_thinking,
        search_api_url,
        search_api_key,
        messages: Seq::empty(),
        stage: Stage::AwaitingFirst,
        first: None,
        next: 0,
        results: Seq::empty(),
    };
    if blank(text) {
        session.ended(Err(empty_text()))
    } else {
        let messages = seq![system_message(), user_message(text, enable_thinking)];
        Move {
            session: SessionView { messages, ..session },
            action: ActionView::SendChat(rendered(chat_request(model, messages, enable_thinking))),
        }
    }
}

/// The state and the action that follow an event. An event that the state
/// does not wait for ends the quick answer with a failure.
pub open spec fn step_move(session: SessionView, event: Event) -> Move {
    match (session.stage, event) {
        (Stage::AwaitingFirst, Event::Chat(exchange)) => session.after_first(exchange),
        (Stage::AwaitingSearch, Event::Search(exchange)) => if session.wf() {
            session.after_search(exchange)
        } else {
            session.ended(Err(unexpected_event()))
        },
        (Stage::AwaitingSecond, Event::Chat(exchange)) => session.after_second(exchange),
        _ => session.ended(Err(unexpected_event())),
    }
}

/// Whether `longer` begins with `shorter`.
pub open spec fn extends(longer: Seq<ToolResultView>, shorter: Seq<ToolResultView>) -> bool {
    shorter.len() <= longer.len() && longer.subrange(0, shorter.len() as int) == shorter
}

/// A first answer without tool calls is the final answer: its text is handed
/// out, no tool is run and the backend is not asked again.
pub proof fn lemma_direct_answer(session: SessionView, exchange: ChatExchange)
    requires
        session.stage == Stage::AwaitingFirst,
        reply_message(exchange, false) is Ok,
        requested_calls(reply_message(exchange, false)->Ok_0).len() == 0,
    ensures
        step_move(session, Event::Chat(exchange)).action == ActionView::Finish(
            answer(reply_message(exchange, false)->Ok_0),
        ),
        step_move(session, Event::Chat(exchange)).session.stage == Stage::Finished,
        step_move(session, Event::Chat(exchange)).session.messages == session.messages,
{
}

/// The run of the tools never ends the quick answer, whatever the tools
/// give: it leads to a search or to the second request. Where it leads to the
/// second request, the conversation has grown by the assistant's message and
/// by one message for each result, in the order of the calls, and the request
/// carries that conversation. No result is lost on the way, and there are no
/// more results than calls that were looked at.
pub proof fn lemma_run_tools(session: SessionView)
    requires
        session.next <= requested_calls(session.first).len(),
    ensures
        ({
            let after = session.run_tools();
            &&& !(after.action is Finish)
            &&& extends(after.session.results, session.results)
            &&& after.session.results.len() - session.results.len() <= after.session.next
                - session.next
            &&& after.session.next <= requested_calls(session.first).len()
            &&& after.session.first == session.first
            &&& after.action is Search ==> after.session.stage == Stage::AwaitingSearch
                && after.session.wf() && after.session.messages == session.messages
            &&& after.action is SendChat ==> after.session.stage == Stage::AwaitingSecond
                && after.session.messages == session.messages.push(
                assistant_message(session.first.unwrap()),
            ) + tool_messages(after.session.results) && after.action
                == ActionView::SendChat(
                rendered(
                    chat_request(session.model, after.session.messages, session.enable_thinking),
                ),
            )
        }),
    decreases requested_calls(session.first).len() - session.next,
{
    let calls = requested_calls(session.first);
    assert(session.results.subrange(0, session.results.len() as int) == session.results);
    if session.next < calls.len() {
        let call = calls[session.next as int];
        match search_query(call) {
            None => {
                lemma_run_tools(SessionView { next: session.next + 1, ..session });
            },
            Some(query) => match prepared_search(
                query,
                session.search_api_url,
                session.search_api_key,
            ) {
                Ok(_) => {},
                Err(cause) => {
                    let pushed = session.results.push(
                        ToolResultView { tool_name: call.name, output_text: tool_text(Err(cause)) },
                    );
                    let next = SessionView { next: session.next + 1, results: pushed, ..session };
                    lemma_run_tools(next);
                    let after = next.run_tools();
                    assert(after.session.results.subrange(0, session.results.len() as int)
                        == after.session.results.subrange(0, pushed.len() as int).subrange(
                        0,
                        session.results.len() as int,
                    ));
                    assert(pushed.subrange(0, session.results.len() as int) == session.results);
                },
            },
        }
    }
}

/// The number of calls from a position on that name a known tool.
pub open spec fn known_calls(calls: Seq<ToolCallView>, from: nat) -> nat
    decreases calls.len() - from,
{
    if from >= calls.len() {
        0
    } else {
        known_calls(calls, from + 1) + if search_query(calls[from as int]).is_some() {
            1nat
        } else {
            0nat
        }
    }
}

/// Every call that names a known tool is run and gets one result, whatever
/// its arguments hold: where the run of the tools leads to the second
/// request, there is one more result for each such call that was still to
/// be looked at; where it stops for a search, the call that it stops at
/// names a known tool, and it and the calls behind it are still to get
/// theirs.
pub proof fn lemma_every_known_call_answered(session: SessionView)
    requires
        session.next <= requested_calls(session.first).len(),
    ensures
        ({
            let calls = requested_calls(session.first);
            let after = session.run_tools();
            &&& after.action is SendChat ==> after.session.results.len() == session.results.len()
                + known_calls(calls, session.next)
            &&& after.action is Search ==> after.session.next < calls.len() && search_query(
                calls[after.session.next as int],
            ).is_some() && after.session.results.len() + known_calls(calls, after.session.next)
                == session.results.len() + known_calls(calls, session.next)
        }),
    decreases requested_calls(session.first).len() - session.next,
{
    let calls = requested_calls(session.first);
    if session.next < calls.len() {
        let call = calls[session.next as int];
        match search_query(call) {
            None => {
                lemma_every_known_call_answered(SessionView { next: session.next + 1, ..session });
            },
            Some(query) => match prepared_search(
                query,
                session.search_api_url,
                session.search_api_key,
            ) {
                Ok(_) => {},
                Err(cause) => {
                    let pushed = session.results.push(
                        ToolResultView { tool_name: call.name, output_text: tool_text(Err(cause)) },
                    );
                    lemma_every_known_call_answered(
                        SessionView { next: session.next + 1, results: pushed, ..session },
                    );
                },
            },
        }
    }
}

/// A call that names the web search is run even where its arguments hold no
/// query: it is run with the empty query.
pub proof fn lemma_web_search_is_always_run(call: ToolCallView)
    requires
        call.name == web_search_name(),
    ensures
        search_query(call).is_some(),
        !(call.arguments.field("query"@) matches Some(JsonValue::Text(_))) ==> search_query(call)
            == Some(Seq::<char>::empty()),
{
}

/// A tool that fails does not end the quick answer: whatever comes back from
/// a search, the quick answer goes on to the next search or to the second
/// request, and the outcome of the search, failure or not, is among the
/// results as text.
pub proof fn lemma_search_never_ends(session: SessionView, exchange: SearchExchange)
    requires
        session.stage == Stage::AwaitingSearch,
        session.wf(),
    ensures
        ({
            let after = step_move(session, Event::Search(exchange));
            let call = requested_calls(session.first)[session.next as int];
            &&& !(after.action is Finish)
            &&& after.session.stage != Stage::Finished
            &&& after.session.results.len() > session.results.len()
            &&& after.session.results[session.results.len() as int] == (ToolResultView {
                tool_name: call.name,
                output_text: tool_text(search_outcome(exchange)),
            })
        }),
{
    let call = requested_calls(session.first)[session.next as int];
    let pushed = session.results.push(
        ToolResultView { tool_name: call.name, output_text: tool_text(search_outcome(exchange)) },
    );
    let next = SessionView { next: session.next + 1, results: pushed, ..session };
    lemma_run_tools(next);
    let after = next.run_tools();
    assert(after.session.results.subrange(0, pushed.len() as int)[session.results.len() as int]
        == after.session.results[session.results.len() as int]);
}

/// The second answer is final: whatever it holds, tool calls or not, the
/// quick answer ends with it.
pub proof fn lemma_second_answer_is_final(session: SessionView, exchange: ChatExchange)
    requires
        session.stage == Stage::AwaitingSecond,
    ensures
        step_move(session, Event::Chat(exchange)).session.stage == Stage::Finished,
        step_move(session, Event::Chat(exchange)).action == ActionView::Finish(
            match reply_message(exchange, true) {
                Ok(message) => answer(message),
                Err(cause) => Err(cause),
            },
        ),
{
}

/// A quick answer that has ended stays ended.
pub proof fn lemma_finished_stays_finished(session: SessionView, event: Event)
    requires
        session.stage == Stage::Finished,
    ensures
        step_move(session, event).session == session,
        step_move(session, event).action is Finish,
{
}

/// What is to be done next.
#[derive(Debug, PartialEq, Eq)]
pub enum Action {
    /// Post this body to the backend.
    SendChat(String),
    /// Send this search.
    Search(SearchRequest),
    /// Hand this outcome to the caller; nothing more is to be done.
    Finish(Result<String, String>),
}

impl View for Action {
    type V = ActionView;

    open spec fn view(&self) -> ActionView {
        match self {
            Action::SendChat(body) => ActionView::SendChat(body@),
            Action::Search(request) => ActionView::Search(request@),
            Action::Finish(Ok(text)) => ActionView::Finish(Ok(text@)),
            Action::Finish(Err(cause)) => ActionView::Finish(Err(cause@)),
        }
    }
}

/// The value of an optional message.
pub open spec fn message_view(message: Option<ChatMessage>) -> Option<ChatMessageView> {
    match message {
        Some(m) => Some(m@),
        None => None,
    }
}

/// The message for a backend that could not be reached.
pub fn connect_failure_text(cause: &str, follow_up: bool) -> (message: String)
    ensures
        message@ == connect_failure(cause@, follow_up),
{
    let begun = joined("Failed to connect to Ollama: ", cause);
    if follow_up {
        begun
    } else {
        joined(begun.as_str(), ". Make sure Ollama is running.")
    }
}

/// The message for a backend that answered with a failure.
pub fn status_failure_text(status_text: &str) -> (message: String)
    ensures
        message@ == status_failure(status_text@),
{
    joined("Ollama API error: ", status_text)
}

/// Reads the message of the backend out of what came back.
pub fn interpret_reply(exchange: ChatExchange, follow_up: bool) -> (r: Result<
    Option<ChatMessage>,
    String,
>)
    ensures
        match r {
            Ok(message) => reply_message(exchange, follow_up) == Ok::<_, Seq<char>>(
                message_view(message),
            ),
            Err(cause) => reply_message(exchange, follow_up) == Err::<Option<ChatMessageView>, _>(
                cause@,
            ),
        },
{
    let reply = match exchange {
        Ok(reply) => reply,
        Err(cause) => {
            return Err(connect_failure_text(cause.as_str(), follow_up));
        },
    };
    if !is_success(reply.status) {
        return Err(status_failure_text(reply.status_text.as_str()));
    }
    let bytes = match reply.body {
        Ok(bytes) => bytes,
        Err(cause) => {
            if follow_up {
                return Err(joined("Failed to read follow-up response: ", cause.as_str()));
            }
            return Err(joined("Failed to read response: ", cause.as_str()));
        },
    };
    let detail = match parse_or_refuse(bytes.as_slice()) {
        Ok(doc) => match decode_response(&doc) {
            Some(response) => {
                return Ok(response.message);
            },
            None => owned("unexpected document"),
        },
        Err(detail) => detail,
    };
    if follow_up {
        Err(joined("Failed to parse follow-up response: ", detail.as_str()))
    } else {
        Err(joined("Failed to parse response: ", detail.as_str()))
    }
}

/// The final answer that a message gives.
pub fn final_answer(message: Option<ChatMessage>) -> (r: Result<String, String>)
    ensures
        match r {
            Ok(text) => answer(message_view(message)) == Ok::<_, Seq<char>>(text@),
            Err(cause) => answer(message_view(message)) == Err::<Seq<char>, _>(cause@),
        },
{
    match message {
        Some(m) => Ok(m.content),
        None => Err(owned("No response from model")),
    }
}

/// The query of a tool call that is to be run.
pub fn query_of(call: &ToolCall) -> (query: Option<String>)
    ensures
        match query {
            Some(q) => search_query(call@) == Some(q@),
            None => search_query(call@).is_none(),
        },
{
    if !same_text(call.function.name.as_str(), "web_search") {
        return None;
    }
    match call.function.arguments.get("query") {
        Some(value) => match value.as_text() {
            Some(q) => Some(owned(q)),
            None => Some(String::new()),
        },
        None => Some(String::new()),
    }
}

/// The text that stands for the outcome of a tool.
pub fn tool_result_text(outcome: Result<String, String>) -> (text: String)
    ensures
        text@ == tool_text(
            match outcome {
                Ok(t) => Ok(t@),
                Err(cause) => Err(cause@),
            },
        ),
{
    match outcome {
        Ok(text) => text,
        Err(cause) => joined("Search failed: ", cause.as_str()),
    }
}

/// Pushing a result adds its value to the values of the results.
proof fn lemma_results_push(results: Seq<ToolResult>, result: ToolResult)
    ensures
        result_views(results.push(result)) == result_views(results).push(result@),
{
}

/// The number of tool calls that a message asks for.
fn count_calls(message: &Option<ChatMessage>) -> (count: usize)
    ensures
        count == requested_calls(message_view(*message)).len(),
{
    match message {
        Some(m) => match &m.tool_calls {
            Some(calls) => calls.len(),
            None => 0,
        },
        None => 0,
    }
}

/// One quick answer on its way through the protocol.
pub struct QuickAnswer {
    model: String,
    enable_thinking: bool,
    search_api_url: String,
    search_api_key: String,
    messages: Vec<Json>,
    stage: Stage,
    first: Option<ChatMessage>,
    next: usize,
    results: Vec<ToolResult>,
}

impl View for QuickAnswer {
    type V = SessionView;

    closed spec fn view(&self) -> SessionView {
        SessionView {
            model: self.model@,
            enable_thinking: self.enable_thinking,
            search_api_url: self.search_api_url@,
            search_api_key: self.search_api_key@,
            messages: values_of(self.messages@),
            stage: self.stage,
            first: message_view(self.first),
            next: self.next as nat,
            results: result_views(self.results@),
        }
    }
}

impl QuickAnswer {
    /// Where the quick answer stands.
    pub fn stage(&self) -> (stage: Stage)
        ensures
            stage == self@.stage,
    {
        self.stage
    }

    /// Begins a quick answer and says what is to be done first. Settings of
    /// the search that are not given count as empty.
    pub fn begin(
        text: &str,
        model: String,
        enable_thinking: bool,
        web_search_api_url: Option<String>,
        web_search_api_key: Option<String>,
    ) -> (begun: (QuickAnswer, Action))
        ensures
            (Move { session: begun.0@, action: begun.1@ }) == begin_move(
                text@,
                model@,
                enable_thinking,
                match web_search_api_url {
                    Some(url) => url@,
                    None => Seq::empty(),
                },
                match web_search_api_key {
                    Some(key) => key@,
                    None => Seq::empty(),
                },
            ),
    {
        let search_api_url = match web_search_api_url {
            Some(url) => url,
            None => String::new(),
        };
        let search_api_key = match web_search_api_key {
            Some(key) => key,
            None => String::new(),
        };
        let mut session = QuickAnswer {
            model,
            enable_thinking,
            search_api_url,
            search_api_key,
            messages: Vec::new(),
            stage: Stage::AwaitingFirst,
            first: None,
            next: 0,
            results: Vec::new(),
        };
        assert(values_of(session.messages@) =~= Seq::<JsonValue>::empty());
        assert(result_views(session.results@) =~= Seq::<ToolResultView>::empty());
        if trim(text).is_empty() {
            session.stage = Stage::Finished;
            return (session, Action::Finish(Err(owned("Empty text"))));
        }
        session.messages = opening_messages(text, enable_thinking);
        let request = build_chat_request(
            session.model.as_str(),
            &session.messages,
            enable_thinking,
        );
        let body = render(&request);
        (session, Action::SendChat(body))
    }

    /// Ends the quick answer with an outcome.
    fn end(&mut self, outcome: Result<String, String>) -> (action: Action)
        ensures
            (Move { session: final(self)@, action: action@ }) == old(self)@.ended(
                match outcome {
                    Ok(t) => Ok(t@),
                    Err(cause) => Err(cause@),
                },
            ),
    {
        self.stage = Stage::Finished;
        Action::Finish(outcome)
    }

    /// Adds the assistant's message and the results of the tools to the
    /// conversation and builds the second request.
    fn follow_up(&mut self) -> (action: Action)
        requires
            old(self).first.is_some(),
        ensures
            (Move { session: final(self)@, action: action@ }) == old(self)@.follow_up(),
    {
        let ghost results = result_views(self.results@);
        match &self.first {
            Some(message) => {
                let echo = assistant_echo(message);
                proof {
                    lemma_values_push(self.messages@, echo);
                }
                self.messages.push(echo);
            },
            None => {},
        }
        let ghost echoed = values_of(self.messages@);
        let mut i: usize = 0;
        while i < self.results.len()
            invariant
                i <= self.results.len(),
                results == result_views(self.results@),
                values_of(self.messages@) == echoed + tool_messages(results).subrange(0, i as int),
                self.model == old(self).model,
                self.enable_thinking == old(self).enable_thinking,
                self.search_api_url == old(self).search_api_url,
                self.search_api_key == old(self).search_api_key,
                self.stage == old(self).stage,
                self.first == old(self).first,
                self.next == old(self).next,
                self.results == old(self).results,
            decreases self.results.len() - i,
        {
            let message = tool_reply(
                self.results[i].tool_name.as_str(),
                self.results[i].output_text.as_str(),
            );
            proof {
                lemma_values_push(self.messages@, message);
            }
            self.messages.push(message);
            i += 1;
        }
        assert(tool_messages(results).subrange(0, i as int) =~= tool_messages(results));
        let request = build_chat_request(self.model.as_str(), &self.messages, self.enable_thinking);
        let body = render(&request);
        self.stage = Stage::AwaitingSecond;
        Action::SendChat(body)
    }

    /// Runs the tool calls from the next one on, up to the first whose search
    /// is to be sent, or up to the second request.
    fn run_tools(&mut self) -> (action: Action)
        requires
            old(self).first.is_some(),
        ensures
            (Move { session: final(self)@, action: action@ }) == old(self)@.run_tools(),
    {
        let count = count_calls(&self.first);
        loop
            invariant
                self.first.is_some(),
                self.first == old(self).first,
                count == requested_calls(message_view(self.first)).len(),
                self@.run_tools() == old(self)@.run_tools(),
            decreases count - self.next,
        {
            if self.next >= count {
                return self.follow_up();
            }
            let mut failure: Option<ToolResult> = None;
            match &self.first {
                Some(message) => match &message.tool_calls {
                    Some(calls) => {
                        let call = &calls[self.next];
                        match query_of(call) {
                            Some(query) => match prepare_web_search(
                                query.as_str(),
                                self.search_api_url.as_str(),
                                self.search_api_key.as_str(),
                            ) {
                                Ok(request) => {
                                    self.stage = Stage::AwaitingSearch;
                                    return Action::Search(request);
                                },
                                Err(cause) => {
                                    failure = Some(
                                        ToolResult {
                                            tool_name: call.function.name.clone(),
                                            output_text: tool_result_text(Err(cause)),
                                        },
                                    );
                                },
                            },
                            None => {},
                        }
                    },
                    None => {},
                },
                None => {},
            }
            match failure {
                Some(result) => {
                    proof {
                        lemma_results_push(self.results@, result);
                    }
                    self.results.push(result);
                },
                None => {},
            }
            self.next = self.next + 1;
        }
    }

    /// Takes what came back from the outside and says what is to be done
    /// next. After `Finish` every further event is answered with a failure.
    pub fn step(&mut self, event: Event) -> (action: Action)
        ensures
            (Move { session: final(self)@, action: action@ }) == step_move(old(self)@, event),
    {
        match (self.stage, event) {
            (Stage::AwaitingFirst, Event::Chat(exchange)) => {
                match interpret_reply(exchange, false) {
                    Err(cause) => self.end(Err(cause)),
                    Ok(message) => {
                        if count_calls(&message) == 0 {
                            let outcome = final_answer(message);
                            self.end(outcome)
                        } else {
                            self.first = message;
                            self.next = 0;
                            self.results = Vec::new();
                            assert(result_views(self.results@) =~= Seq::<ToolResultView>::empty());
                            self.run_tools()
                        }
                    },
                }
            },
            (Stage::AwaitingSearch, Event::Search(exchange)) => {
                if self.next >= count_calls(&self.first) {
                    return self.end(Err(owned("Unexpected event")));
                }
                let outcome = web_search_outcome(exchange);
                let output_text = tool_result_text(outcome);
                let tool_name = match &self.first {
                    Some(message) => match &message.tool_calls {
                        Some(calls) => calls[self.next].function.name.clone(),
                        None => String::new(),
                    },
                    None => String::new(),
                };
                let result = ToolResult { tool_name, output_text };
                proof {
                    lemma_results_push(self.results@, result);
                }
                self.results.push(result);
                self.next = self.next + 1;
                self.run_tools()
            },
            (Stage::AwaitingSecond, Event::Chat(exchange)) => {
                match interpret_reply(exchange, true) {
                    Err(cause) => self.end(Err(cause)),
                    Ok(message) => {
                        let outcome = final_answer(message);
                        self.end(outcome)
                    },
                }
            },
            _ => self.end(Err(owned("Unexpected event"))),
        }
    }
}

} // verus!
