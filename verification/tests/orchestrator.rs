use quickask::json::{parse, Json};
use quickask::orchestrator::{
    connect_failure_text, final_answer, interpret_reply, query_of, status_failure_text,
    tool_result_text, Action, Event, QuickAnswer, Stage,
};
use quickask::chat::{ChatMessage, ToolCall, ToolCallFunction};
use quickask::tools::SearchRequest;
use quickask::transport::HttpReply;

fn chat_ok(body: &str) -> Event {
    Event::Chat(Ok(HttpReply { status: 200, status_text: "200 OK".to_string(), body: Ok(body.as_bytes().to_vec()) }))
}

fn search_ok(body: &str) -> Event {
    Event::Search(Ok(HttpReply { status: 200, status_text: "200 OK".to_string(), body: Ok(body.to_string()) }))
}

fn roles(body: &str) -> Vec<String> {
    let request = parse(body.as_bytes()).unwrap();
    let messages = request.get("messages").unwrap().as_array().unwrap();
    messages.iter().map(|m| m.get("role").unwrap().as_text().unwrap().to_string()).collect()
}

fn message_at(body: &str, index: usize) -> Json {
    let request = parse(body.as_bytes()).unwrap();
    request.get("messages").unwrap().item(index).unwrap().duplicate()
}

const WANTS_SEARCH: &str = "{\"message\":{\"role\":\"assistant\",\"content\":\"\",\"tool_calls\":[{\"function\":{\"name\":\"web_search\",\"arguments\":{\"query\":\"capital of France\"}}}]},\"done\":true}";

#[test]
fn answer_without_tool_calls_is_final() {
    let (mut session, first) = QuickAnswer::begin(
        "capital of France?",
        "qwen3".to_string(),
        false,
        Some("https://search.example/api".to_string()),
        Some("secret".to_string()),
    );
    let body = match first {
        Action::SendChat(body) => body,
        other => panic!("expected a request, got {:?}", other),
    };
    assert_eq!(roles(&body), vec!["system", "user"]);
    assert_eq!(message_at(&body, 1).get("content").unwrap().as_text(), Some("capital of France? /no_think"));
    assert_eq!(session.stage(), Stage::AwaitingFirst);
    let action = session.step(chat_ok(
        "{\"message\":{\"role\":\"assistant\",\"content\":\"Paris is the capital of France.\"},\"done\":true}",
    ));
    assert_eq!(action, Action::Finish(Ok("Paris is the capital of France.".to_string())));
    assert_eq!(session.stage(), Stage::Finished);
}

#[test]
fn empty_tool_call_list_is_no_tool_call() {
    let (mut session, _) = QuickAnswer::begin("q", "m".to_string(), true, None, None);
    let action = session.step(chat_ok(
        "{\"message\":{\"role\":\"assistant\",\"content\":\"direct\",\"tool_calls\":[]},\"done\":true}",
    ));
    assert_eq!(action, Action::Finish(Ok("direct".to_string())));
}

#[test]
fn tool_call_leads_to_search_and_second_request() {
    let (mut session, _) = QuickAnswer::begin(
        "capital of France?",
        "qwen3".to_string(),
        true,
        Some(" https://search.example/api ".to_string()),
        Some("secret".to_string()),
    );
    let action = session.step(chat_ok(WANTS_SEARCH));
    assert_eq!(
        action,
        Action::Search(SearchRequest {
            url: "https://search.example/api?format=json".to_string(),
            authorization: "Bearer secret".to_string(),
            content_type: "application/x-www-form-urlencoded".to_string(),
            body: "q=capital%20of%20France".to_string(),
        })
    );
    assert_eq!(session.stage(), Stage::AwaitingSearch);
    let action = session.step(search_ok("Paris."));
    let body = match action {
        Action::SendChat(body) => body,
        other => panic!("expected the second request, got {:?}", other),
    };
    assert_eq!(session.stage(), Stage::AwaitingSecond);
    assert_eq!(roles(&body), vec!["system", "user", "assistant", "tool"]);
    let assistant = message_at(&body, 2);
    let calls = assistant.get("tool_calls").unwrap().as_array().unwrap();
    assert_eq!(calls.len(), 1);
    assert_eq!(calls[0].get("function").unwrap().get("name").unwrap().as_text(), Some("web_search"));
    let tool = message_at(&body, 3);
    assert_eq!(tool.get("tool_name").unwrap().as_text(), Some("web_search"));
    assert_eq!(tool.get("content").unwrap().as_text(), Some("Paris."));
    let request = parse(body.as_bytes()).unwrap();
    assert_eq!(request.get("think"), Some(&Json::Bool(true)));
    assert_eq!(request.get("stream"), Some(&Json::Bool(false)));
    assert_eq!(request.get("tools").unwrap().as_array().unwrap().len(), 1);
    let action = session.step(chat_ok(
        "{\"message\":{\"role\":\"assistant\",\"content\":\"The capital of France is Paris.\"},\"done\":true}",
    ));
    assert_eq!(action, Action::Finish(Ok("The capital of France is Paris.".to_string())));
    assert_eq!(session.stage(), Stage::Finished);
}

#[test]
fn failing_tool_does_not_stop_the_protocol() {
    let (mut session, _) = QuickAnswer::begin(
        "capital of France?",
        "qwen3".to_string(),
        false,
        Some("https://search.example/api".to_string()),
        None,
    );
    let action = session.step(chat_ok(WANTS_SEARCH));
    let body = match action {
        Action::SendChat(body) => body,
        other => panic!("expected the second request, got {:?}", other),
    };
    assert_eq!(roles(&body), vec!["system", "user", "assistant", "tool"]);
    let tool = message_at(&body, 3);
    let content = tool.get("content").unwrap().as_text().unwrap().to_string();
    assert_eq!(content, "Search failed: Search API key not configured in Options");
    assert!(content.contains("not configured"));
    let action = session.step(chat_ok(
        "{\"message\":{\"role\":\"assistant\",\"content\":\"I could not search.\"},\"done\":true}",
    ));
    assert_eq!(action, Action::Finish(Ok("I could not search.".to_string())));
}

#[test]
fn failed_search_becomes_the_tool_result() {
    let (mut session, _) = QuickAnswer::begin("q", "m".to_string(), false, Some("u".to_string()), Some("k".to_string()));
    assert!(matches!(session.step(chat_ok(WANTS_SEARCH)), Action::Search(_)));
    let action = session.step(Event::Search(Ok(HttpReply {
        status: 503,
        status_text: "503 Service Unavailable".to_string(),
        body: Ok("busy".to_string()),
    })));
    let body = match action {
        Action::SendChat(body) => body,
        other => panic!("expected the second request, got {:?}", other),
    };
    assert_eq!(
        message_at(&body, 3).get("content").unwrap().as_text(),
        Some("Search failed: Search API error: 503 Service Unavailable")
    );
}

#[test]
fn unknown_tools_are_passed_over() {
    let first = "{\"message\":{\"role\":\"assistant\",\"content\":\"thinking\",\"tool_calls\":[{\"function\":{\"name\":\"calculator\",\"arguments\":{\"query\":\"1+1\"}}},{\"function\":{\"name\":\"web_search\",\"arguments\":{\"query\":\"second\"}}},{\"function\":{\"name\":\"Web_Search\",\"arguments\":{\"query\":\"x\"}}},{\"function\":{\"name\":\"web_search\",\"arguments\":{\"query\":\"third\"}}}]},\"done\":true}";
    let (mut session, _) = QuickAnswer::begin("q", "m".to_string(), false, Some("u".to_string()), Some("k".to_string()));
    match session.step(chat_ok(first)) {
        Action::Search(request) => assert_eq!(request.body, "q=second"),
        other => panic!("expected a search, got {:?}", other),
    }
    match session.step(search_ok("two")) {
        Action::Search(request) => assert_eq!(request.body, "q=third"),
        other => panic!("expected a search, got {:?}", other),
    }
    let body = match session.step(search_ok("three")) {
        Action::SendChat(body) => body,
        other => panic!("expected the second request, got {:?}", other),
    };
    assert_eq!(roles(&body), vec!["system", "user", "assistant", "tool", "tool"]);
    assert_eq!(message_at(&body, 2).get("content").unwrap().as_text(), Some("thinking"));
    assert_eq!(message_at(&body, 2).get("tool_calls").unwrap().as_array().unwrap().len(), 4);
    assert_eq!(message_at(&body, 3).get("content").unwrap().as_text(), Some("two"));
    assert_eq!(message_at(&body, 4).get("content").unwrap().as_text(), Some("three"));
}

#[test]
fn web_search_without_usable_query_is_still_run() {
    for arguments in ["{}", "{\"query\":\"\"}", "{\"query\":5}", "{\"q\":\"x\"}", "null"] {
        let first = format!(
            "{{\"message\":{{\"role\":\"assistant\",\"content\":\"\",\"tool_calls\":[{{\"function\":{{\"name\":\"web_search\",\"arguments\":{}}}}}]}},\"done\":true}}",
            arguments
        );
        let (mut session, _) = QuickAnswer::begin("q", "m".to_string(), false, Some("u".to_string()), Some("k".to_string()));
        match session.step(chat_ok(&first)) {
            Action::Search(request) => assert_eq!(request.body, "q="),
            other => panic!("expected a search, got {:?}", other),
        }
        let body = match session.step(search_ok("found")) {
            Action::SendChat(body) => body,
            other => panic!("expected the second request, got {:?}", other),
        };
        assert_eq!(roles(&body), vec!["system", "user", "assistant", "tool"]);
        assert_eq!(message_at(&body, 3).get("tool_name").unwrap().as_text(), Some("web_search"));
        assert_eq!(message_at(&body, 3).get("content").unwrap().as_text(), Some("found"));

        let (mut session, _) = QuickAnswer::begin("q", "m".to_string(), false, None, None);
        let body = match session.step(chat_ok(&first)) {
            Action::SendChat(body) => body,
            other => panic!("expected the second request, got {:?}", other),
        };
        assert_eq!(roles(&body), vec!["system", "user", "assistant", "tool"]);
        assert_eq!(
            message_at(&body, 3).get("content").unwrap().as_text(),
            Some("Search failed: Search API URL not configured in Options")
        );
    }
}

#[test]
fn tool_calls_of_the_second_answer_are_not_run() {
    let (mut session, _) = QuickAnswer::begin("q", "m".to_string(), false, Some("u".to_string()), Some("k".to_string()));
    assert!(matches!(session.step(chat_ok(WANTS_SEARCH)), Action::Search(_)));
    assert!(matches!(session.step(search_ok("r")), Action::SendChat(_)));
    let second = WANTS_SEARCH.replace("\"content\":\"\"", "\"content\":\"final\"");
    assert_eq!(session.step(chat_ok(&second)), Action::Finish(Ok("final".to_string())));
}

#[test]
fn blank_text_ends_at_once() {
    let (session, action) = QuickAnswer::begin(" \n\t ", "m".to_string(), false, None, None);
    assert_eq!(action, Action::Finish(Err("Empty text".to_string())));
    assert_eq!(session.stage(), Stage::Finished);
}

#[test]
fn missing_message_is_no_response() {
    let (mut session, _) = QuickAnswer::begin("q", "m".to_string(), false, None, None);
    assert_eq!(session.step(chat_ok("{\"done\":true}")), Action::Finish(Err("No response from model".to_string())));
    let (mut session, _) = QuickAnswer::begin("q", "m".to_string(), false, None, None);
    assert!(matches!(session.step(chat_ok(WANTS_SEARCH)), Action::SendChat(_)));
    assert_eq!(session.step(chat_ok("{\"done\":true}")), Action::Finish(Err("No response from model".to_string())));
}

#[test]
fn transport_failures_end_the_protocol() {
    let (mut session, _) = QuickAnswer::begin("q", "m".to_string(), false, None, None);
    assert_eq!(
        session.step(Event::Chat(Err("refused".to_string()))),
        Action::Finish(Err("Failed to connect to Ollama: refused. Make sure Ollama is running.".to_string()))
    );
    assert_eq!(session.stage(), Stage::Finished);
    assert_eq!(session.step(chat_ok("{\"done\":true}")), Action::Finish(Err("Unexpected event".to_string())));

    let (mut session, _) = QuickAnswer::begin("q", "m".to_string(), false, None, None);
    assert!(matches!(session.step(chat_ok(WANTS_SEARCH)), Action::SendChat(_)));
    assert_eq!(
        session.step(Event::Chat(Err("refused".to_string()))),
        Action::Finish(Err("Failed to connect to Ollama: refused".to_string()))
    );
}

#[test]
fn events_out_of_turn_are_refused() {
    let (mut session, _) = QuickAnswer::begin("q", "m".to_string(), false, None, None);
    assert_eq!(session.step(search_ok("x")), Action::Finish(Err("Unexpected event".to_string())));
    let (mut session, _) = QuickAnswer::begin("q", "m".to_string(), false, Some("u".to_string()), Some("k".to_string()));
    assert!(matches!(session.step(chat_ok(WANTS_SEARCH)), Action::Search(_)));
    assert_eq!(session.step(chat_ok("{\"done\":true}")), Action::Finish(Err("Unexpected event".to_string())));
}

fn reply(status: u16, status_text: &str, body: Result<&str, &str>) -> Result<HttpReply<Vec<u8>>, String> {
    Ok(HttpReply {
        status,
        status_text: status_text.to_string(),
        body: match body {
            Ok(b) => Ok(b.as_bytes().to_vec()),
            Err(e) => Err(e.to_string()),
        },
    })
}

#[test]
fn replies_are_read_or_described() {
    assert_eq!(interpret_reply(reply(200, "200 OK", Ok("{\"done\":false}")), false), Ok(None));
    assert_eq!(
        interpret_reply(reply(200, "200 OK", Ok("{\"message\":{\"role\":\"r\",\"content\":\"c\"},\"done\":false}")), true),
        Ok(Some(ChatMessage { role: "r".into(), content: "c".into(), tool_calls: None }))
    );
    assert_eq!(
        interpret_reply(reply(404, "404 Not Found", Ok("{\"done\":false}")), false),
        Err("Ollama API error: 404 Not Found".to_string())
    );
    assert_eq!(
        interpret_reply(reply(500, "500 Internal Server Error", Ok("")), true),
        Err("Ollama API error: 500 Internal Server Error".to_string())
    );
    assert_eq!(
        interpret_reply(reply(200, "200 OK", Err("cut")), false),
        Err("Failed to read response: cut".to_string())
    );
    assert_eq!(
        interpret_reply(reply(200, "200 OK", Err("cut")), true),
        Err("Failed to read follow-up response: cut".to_string())
    );
    assert_eq!(
        interpret_reply(reply(200, "200 OK", Ok("<html>")), false),
        Err("Failed to parse response: expected value at line 1 column 1".to_string())
    );
    assert_eq!(
        interpret_reply(reply(200, "200 OK", Ok("{\"done\":tru")), true),
        Err(format!("Failed to parse follow-up response: {}", said(b"{\"done\":tru")))
    );
    assert_eq!(
        interpret_reply(reply(200, "200 OK", Ok("{\"message\":{},\"done\":true}")), false),
        Err("Failed to parse response: unexpected document".to_string())
    );
    assert_eq!(
        interpret_reply(reply(200, "200 OK", Ok("{\"message\":{}}")), true),
        Err("Failed to parse follow-up response: unexpected document".to_string())
    );
    assert_eq!(
        interpret_reply(Err("e".to_string()), false),
        Err("Failed to connect to Ollama: e. Make sure Ollama is running.".to_string())
    );
    assert_eq!(interpret_reply(Err("e".to_string()), true), Err("Failed to connect to Ollama: e".to_string()));
}

fn said(bytes: &[u8]) -> String {
    serde_json::from_slice::<serde_json::Value>(bytes).unwrap_err().to_string()
}

fn call(name: &str, arguments: &str) -> ToolCall {
    ToolCall {
        call_type: None,
        function: ToolCallFunction { index: None, name: name.to_string(), arguments: parse(arguments.as_bytes()).unwrap() },
    }
}

#[test]
fn every_web_search_has_a_query() {
    assert_eq!(query_of(&call("web_search", "{\"query\":\"x y\"}")), Some("x y".to_string()));
    assert_eq!(query_of(&call("web_search", "{\"query\":\"\"}")), Some(String::new()));
    assert_eq!(query_of(&call("web_search", "{\"query\":5}")), Some(String::new()));
    assert_eq!(query_of(&call("web_search", "{}")), Some(String::new()));
    assert_eq!(query_of(&call("web_search", "\"query\"")), Some(String::new()));
    assert_eq!(query_of(&call("Web_Search", "{\"query\":\"x\"}")), None);
    assert_eq!(query_of(&call("web_search2", "{\"query\":\"x\"}")), None);
}

#[test]
fn tool_failure_is_text() {
    assert_eq!(tool_result_text(Ok("Paris.".to_string())), "Paris.");
    assert_eq!(tool_result_text(Err("boom".to_string())), "Search failed: boom");
    assert_eq!(final_answer(None), Err("No response from model".to_string()));
    assert_eq!(
        final_answer(Some(ChatMessage { role: "assistant".into(), content: "a".into(), tool_calls: None })),
        Ok("a".to_string())
    );
}

#[test]
fn failure_messages_name_cause_and_status() {
    assert_eq!(connect_failure_text("refused", false), "Failed to connect to Ollama: refused. Make sure Ollama is running.");
    assert_eq!(connect_failure_text("refused", true), "Failed to connect to Ollama: refused");
    assert_eq!(status_failure_text("502 Bad Gateway"), "Ollama API error: 502 Bad Gateway");
}
